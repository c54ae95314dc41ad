//! The allocation provider: a stateless value exposing the capability query,
//! the acquire operation and the release operation over the native heap
//! manager.
//!
//! The provider performs no bookkeeping: a block descriptor is linked to the
//! layout request that produced it by a caller-maintained contract only, and
//! the caller must reproduce that request exactly when the block is released.
//! The raw calls into the native heap manager live outside this library; the
//! functions here state and check everything the provider itself decides:
//! which requests it supports, how a manager's answer becomes an acquisition
//! outcome, and what a release reports.

use crate::layout::Layout;
use vstd::prelude::*;

verus! {

/// The single failure kind of the provider: the native heap manager returned
/// a null address for an acquire request. It carries no further detail
/// because the manager exposes none.
#[derive(Debug, Clone, PartialEq, Eq, Structural)]
pub struct CoreAllocError;

impl CoreAllocError {
    /// A human-readable description of the failure.
    pub fn message(&self) -> (m: &'static str)
        ensures
            m@ == "alloc returns null pointer."@,
    {
        "alloc returns null pointer."
    }
}

/// A block descriptor: the base address and length in bytes of a contiguous
/// region of raw memory currently owned by whoever holds the descriptor.
///
/// A descriptor is valid only from the moment the acquire operation returns
/// it until the release operation consumes it; the provider never retains a
/// reference to outstanding blocks.
#[derive(Debug, Clone, Copy, PartialEq, Eq, Structural)]
pub struct Block {
    /// Base address of the region. Never null for a block the provider
    /// handed out.
    pub addr: usize,
    /// Length of the region in bytes: exactly the size that was requested,
    /// not the manager's possibly larger actual allocation.
    pub len: usize,
}

impl Block {
    /// A block the provider hands out always has a non-null base address.
    pub open spec fn wf(self) -> bool {
        self.addr != 0
    }

    /// The caller-maintained link between a block and the request that
    /// produced it: the block is non-null, has exactly the requested size,
    /// and its base address meets the requested alignment. The provider
    /// keeps no record of this link; releasing a block is sound only with a
    /// layout that fits it this way.
    pub open spec fn fits(self, layout: Layout) -> bool {
        &&& self.addr != 0
        &&& self.len == layout.size
        &&& self.addr as int % layout.align as int == 0
    }
}

/// The outcome of an acquisition once the native heap manager has answered
/// with `addr` (null is written as zero): a null address is an allocation
/// failure; any other address names a block of exactly the requested size
/// based at that address.
pub open spec fn allocation_outcome(layout: Layout, addr: usize) -> Result<Block, CoreAllocError> {
    if addr != 0 {
        Ok(Block { addr, len: layout.size })
    } else {
        Err(CoreAllocError)
    }
}

/// The outcome of a release: the size of the released block, as a
/// bookkeeping convenience. The release path never produces an error; the
/// error position exists only for uniformity with acquisition.
pub open spec fn deallocation_outcome(layout: Layout) -> Result<usize, CoreAllocError> {
    Ok(layout.size)
}

/// The allocation provider. It owns no state beyond its own identity, so it
/// may be constructed fresh, copied, or shared freely across threads; every
/// value behaves identically.
#[derive(Debug, Clone, Copy, PartialEq, Eq, Structural)]
pub struct CoreAlloc;

impl CoreAlloc {
    /// The process-wide shared provider. Because the provider is stateless,
    /// the shared value and a fresh one are interchangeable.
    pub fn shared() -> (r: CoreAlloc)
        ensures
            r == CoreAlloc,
    {
        CoreAlloc
    }

    /// Constructs a fresh provider.
    pub fn new() -> (r: CoreAlloc)
        ensures
            r == CoreAlloc,
    {
        CoreAlloc
    }

    /// The capability query: whether this provider is able to service
    /// `layout`. This provider defers all feasibility checking to the native
    /// heap manager at acquisition time, so the answer is unconditionally
    /// true; acquisition is the authoritative success or failure signal.
    pub fn can_support(&self, layout: Layout) -> (b: bool)
        ensures
            b,
    {
        let _ = layout;
        true
    }

    /// Turns the address the native heap manager answered an acquire request
    /// with (zero for null) into the acquisition outcome: an explicit error
    /// for a null address, otherwise a block of exactly `layout.size` bytes
    /// based at `addr`. A failed acquisition never yields a usable-looking
    /// block.
    pub fn finish_allocate(&self, layout: Layout, addr: usize) -> (r: Result<
        Block,
        CoreAllocError,
    >)
        requires
            layout.wf(),
        ensures
            r == allocation_outcome(layout, addr),
    {
        if addr != 0 {
            Ok(Block { addr, len: layout.size })
        } else {
            Err(CoreAllocError)
        }
    }

    /// Reports the outcome of releasing a block that was acquired with
    /// `layout`: the released size, always successfully. The caller must
    /// have handed the block itself back to the native heap manager exactly
    /// once, with this same request.
    pub fn finish_deallocate(&self, layout: Layout) -> (r: Result<usize, CoreAllocError>)
        ensures
            r == deallocation_outcome(layout),
    {
        Ok(layout.size)
    }
}

impl Default for CoreAlloc {
    /// The default provider: the same value as every other provider.
    fn default() -> (r: CoreAlloc)
        ensures
            r == CoreAlloc,
    {
        CoreAlloc
    }
}

/// Law: the provider is stateless. Any two provider values are equal, so the
/// shared provider, a fresh one and a copy are freely interchangeable, and
/// every operation's outcome is independent of which of them is asked.
pub proof fn lemma_provider_stateless(a: CoreAlloc, b: CoreAlloc)
    ensures
        a == b,
{
}

/// Law: every successful acquisition is exact. When the native heap manager
/// answers with a non-null base address that meets the requested alignment,
/// the outcome is a block of exactly `layout.size` bytes whose base address
/// is that same address, still a multiple of `layout.align`.
pub proof fn lemma_successful_allocation_exact(layout: Layout, addr: usize)
    requires
        layout.wf(),
        addr != 0,
        addr as int % layout.align as int == 0,
    ensures
        allocation_outcome(layout, addr) is Ok,
        allocation_outcome(layout, addr)->Ok_0.len == layout.size,
        allocation_outcome(layout, addr)->Ok_0.addr == addr,
        allocation_outcome(layout, addr)->Ok_0.addr as int % layout.align as int == 0,
        allocation_outcome(layout, addr)->Ok_0.wf(),
        allocation_outcome(layout, addr)->Ok_0.fits(layout),
{
}

/// Law: a refused acquisition is an explicit failure. A null answer from the
/// native heap manager yields the allocation error — never a block.
pub proof fn lemma_failed_allocation_is_error(layout: Layout)
    ensures
        allocation_outcome(layout, 0) is Err,
        allocation_outcome(layout, 0)->Err_0 == CoreAllocError,
{
}

/// Law: a release reports exactly the released size. For a block acquired
/// with `layout`, the release outcome is `Ok(layout.size)`; the release path
/// itself never produces an error.
pub proof fn lemma_release_reports_size(layout: Layout)
    ensures
        deallocation_outcome(layout) == Ok::<usize, CoreAllocError>(layout.size),
{
}

} // verus!
