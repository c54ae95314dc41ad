//! A minimal, process-wide allocation provider.
//!
//! The crate exposes a stateless provider value, [`CoreAlloc`], that bridges
//! callers to the native heap manager: a capability query, an acquire
//! operation and a release operation, with the safety contract of the pair
//! stated and checked here. Richer allocation strategies (pools, arenas,
//! free lists) are expected to be built on top of it by other components.

pub mod layout;
pub mod provider;

pub use layout::Layout;
pub use provider::Block;
pub use provider::CoreAlloc;
pub use provider::CoreAllocError;
