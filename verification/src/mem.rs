//! Sizing of the shared-memory region that backs a surface's framebuffers,
//! and the caller-visible coordinates of one framebuffer inside it.

use vstd::prelude::*;

verus! {

/// Number of framebuffers kept per surface: one may be presented while the
/// other is written.
pub const BUFFER_COUNT: usize = 2;

/// Fixed number of bytes per pixel in a framebuffer.
pub const BYTES_PER_PIXEL: u32 = 4;

/// Size in bytes of a page of memory, the alignment the compositor expects
/// of a shared-memory region.
pub const PAGE_SIZE: usize = 4096;

/// `v` rounded up to the next multiple of the page size.
pub open spec fn spec_round_up_to_page_size(v: int) -> int {
    ((v + PAGE_SIZE - 1) / (PAGE_SIZE as int)) * (PAGE_SIZE as int)
}

/// Rounding up to the page size yields the least page-aligned value that is
/// at least `v`: it is aligned, no smaller than `v`, and less than one page
/// beyond `v`.
pub proof fn lemma_round_up_to_page_size_properties(v: int)
    requires
        v >= 0,
    ensures
        spec_round_up_to_page_size(v) % (PAGE_SIZE as int) == 0,
        spec_round_up_to_page_size(v) >= v,
        spec_round_up_to_page_size(v) < v + PAGE_SIZE,
{
    let p = PAGE_SIZE as int;
    let q = (v + p - 1) / p;
    vstd::arithmetic::div_mod::lemma_fundamental_div_mod(v + p - 1, p);
    vstd::arithmetic::div_mod::lemma_mod_bound(v + p - 1, p);
    assert(q * p == v + p - 1 - ((v + p - 1) % p));
    vstd::arithmetic::div_mod::lemma_mod_multiples_basic(q, p);
}

/// Rounds `v` up to the next multiple of the page size, as the
/// shared-memory collaborator requires when sizing a region.
pub fn round_up_to_page_size(v: usize) -> (r: usize)
    requires
        v + PAGE_SIZE - 1 <= usize::MAX,
    ensures
        r == spec_round_up_to_page_size(v as int),
        r % PAGE_SIZE == 0,
        r >= v,
        r < v + PAGE_SIZE,
{
    let q = (v + (PAGE_SIZE - 1)) / PAGE_SIZE;
    proof {
        lemma_round_up_to_page_size_properties(v as int);
    }
    q * PAGE_SIZE
}

/// The caller-visible coordinates of one framebuffer inside a surface's
/// mapped shared-memory region: the renderer writes the `len` bytes that
/// start `offset` bytes into the region.
#[derive(Clone, Copy, Debug, PartialEq, Eq, Structural)]
pub struct FramebufferMemory {
    /// Byte offset of the framebuffer from the start of the region.
    pub offset: usize,
    /// Length of the framebuffer in bytes.
    pub len: usize,
}

} // verus!
