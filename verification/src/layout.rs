//! Layout requests: the (size, alignment) requirement a caller hands to the
//! allocation provider.

use vstd::arithmetic::power2::is_pow2;
use vstd::layout::valid_layout;
use vstd::prelude::*;

verus! {

/// A layout request: a contiguous region of `size` bytes whose base address
/// is a multiple of `align`.
///
/// A request is meaningful to the provider only when it is well formed
/// ([`Layout::wf`]): the alignment is a power of two and the size, rounded up
/// to the alignment, does not overflow the address space. The provider does
/// not re-validate requests; callers build them through
/// [`Layout::from_size_align`], which does.
#[derive(Debug, Clone, Copy, PartialEq, Eq, Structural)]
pub struct Layout {
    /// Requested length in bytes.
    pub size: usize,
    /// Required alignment of the base address, in bytes.
    pub align: usize,
}

impl Layout {
    /// Well-formedness of a request: power-of-two alignment, and a size that
    /// still fits the address space once rounded up to that alignment.
    pub open spec fn wf(self) -> bool {
        valid_layout(self.size, self.align)
    }

    /// Decides whether `align` is a power of two.
    fn align_is_pow2(align: usize) -> (b: bool)
        ensures
            b == is_pow2(align as int),
    {
        proof {
            reveal(is_pow2);
        }
        if align == 0 {
            return false;
        }
        let mut x: usize = align;
        while x > 1
            invariant
                1 <= x,
                is_pow2(align as int) == is_pow2(x as int),
            decreases x,
        {
            proof {
                reveal(is_pow2);
            }
            if x % 2 != 0 {
                return false;
            }
            x = x / 2;
        }
        proof {
            reveal(is_pow2);
        }
        true
    }

    /// Builds a well-formed request, or refuses the pair: the result is
    /// `Some` exactly when `size` and `align` form a valid layout.
    pub fn from_size_align(size: usize, align: usize) -> (r: Option<Layout>)
        ensures
            r is Some <==> valid_layout(size, align),
            r is Some ==> r->0 == (Layout { size, align }),
    {
        if Self::align_is_pow2(align) {
            proof {
                reveal(is_pow2);
                vstd::arithmetic::div_mod::lemma_mod_decreases(
                    isize::MAX as nat,
                    align as nat,
                );
            }
            let limit: usize = (isize::MAX as usize) - ((isize::MAX as usize) % align);
            if size <= limit {
                Some(Layout { size, align })
            } else {
                None
            }
        } else {
            None
        }
    }
}

} // verus!
