//! Memory layouts: a size and an alignment, checked once.

use vstd::arithmetic::power2::lemma_pow2_pos;
use vstd::arithmetic::power2::pow2;
use vstd::bits::lemma_usize_pow2_no_overflow;
use vstd::bits::lemma_usize_shl_is_mul;
use vstd::prelude::*;

use crate::handle::gravestone;
use crate::handle::is_live;
use crate::handle::live;
use crate::handle::state_of;
use crate::handle::take;
use crate::handle::Moved;
use crate::handle::Owned;
use crate::result::ZResult;
use crate::result::Z_EINVAL;
use crate::result::Z_ENULL;
use crate::result::Z_OK;

verus! {

/// An alignment, as the exponent of a power of two.
#[derive(Clone, Copy, Debug, PartialEq, Eq, Structural)]
pub struct z_alloc_alignment_t {
    /// `1 << pow` is the alignment.
    pub pow: u8,
}

impl z_alloc_alignment_t {
    /// Whether the alignment fits a `usize`.
    pub open spec fn fits(self) -> bool {
        self.pow < usize::BITS
    }

    /// The alignment in bytes.
    pub open spec fn bytes(self) -> nat {
        pow2(self.pow as nat)
    }
}

/// Byte alignment: what the spellings without an alignment ask for.
pub open spec fn byte_alignment() -> z_alloc_alignment_t {
    z_alloc_alignment_t { pow: 0 }
}

/// Byte alignment.
pub fn align_byte() -> (alignment: z_alloc_alignment_t)
    ensures
        alignment == byte_alignment(),
{
    z_alloc_alignment_t { pow: 0 }
}

/// Tests whether an alignment fits a `usize`.
pub fn alignment_fits(alignment: z_alloc_alignment_t) -> (r: bool)
    ensures
        r == alignment.fits(),
{
    (alignment.pow as u32) < usize::BITS
}

/// The alignment in bytes.
pub fn alignment_bytes(alignment: z_alloc_alignment_t) -> (align: usize)
    requires
        alignment.fits(),
    ensures
        align == alignment.bytes(),
        align > 0,
{
    proof {
        lemma_pow2_pos(alignment.pow as nat);
        lemma_usize_pow2_no_overflow(alignment.pow as nat);
        lemma_usize_shl_is_mul(1, alignment.pow as usize);
    }
    1usize << (alignment.pow as usize)
}

/// What a memory layout holds.
#[derive(Clone, Copy, Debug, PartialEq, Eq, Structural)]
pub struct MemoryLayoutState {
    pub size: usize,
    pub alignment: z_alloc_alignment_t,
}

/// An owned memory layout.
pub type z_owned_memory_layout_t = Owned<MemoryLayoutState>;

/// A borrowed memory layout: the same slot, so the loan is the slot itself.
pub type z_loaned_memory_layout_t = Owned<MemoryLayoutState>;

/// A memory layout on its way to be consumed.
pub type z_moved_memory_layout_t = Moved<MemoryLayoutState>;

/// Whether a layout can be asked of an allocator: it has bytes, and its
/// alignment fits a `usize`.
pub open spec fn layout_is_sound(size: usize, alignment: z_alloc_alignment_t) -> bool {
    size != 0 && alignment.fits()
}

/// Constructs a memory layout. One that no allocator could serve is refused and
/// leaves a gravestone.
pub fn z_memory_layout_new(
    this_: Option<&mut z_owned_memory_layout_t>,
    size: usize,
    alignment: z_alloc_alignment_t,
) -> (code: ZResult)
    ensures
        code == (if this_ is None {
            Z_ENULL
        } else if layout_is_sound(size, alignment) {
            Z_OK
        } else {
            Z_EINVAL
        }),
        this_ matches Some(slot) ==> final(slot).state == (if layout_is_sound(size, alignment) {
            Some(MemoryLayoutState { size, alignment })
        } else {
            None
        }),
{
    match this_ {
        None => Z_ENULL,
        Some(slot) => {
            slot.state = None;
            if size == 0 {
                return Z_EINVAL;
            }
            if !alignment_fits(alignment) {
                return Z_EINVAL;
            }
            slot.state = Some(MemoryLayoutState { size, alignment });
            Z_OK
        },
    }
}

/// Reads a layout's size and alignment back. Each output is written on its own;
/// a dead layout writes neither.
pub fn z_memory_layout_get_data(
    this_: Option<&z_loaned_memory_layout_t>,
    out_size: Option<&mut usize>,
    out_alignment: Option<&mut z_alloc_alignment_t>,
)
    ensures
        out_size matches Some(out) ==> *final(out) == (match live(this_) {
            Some(state) => state.size,
            None => *out,
        }),
        out_alignment matches Some(out) ==> *final(out) == (match live(this_) {
            Some(state) => state.alignment,
            None => *out,
        }),
{
    if let Some(state) = state_of(this_) {
        if let Some(out) = out_size {
            *out = state.size;
        }
        if let Some(out) = out_alignment {
            *out = state.alignment;
        }
    }
}

/// Borrows a memory layout.
pub fn z_memory_layout_loan(this_: Option<&z_owned_memory_layout_t>) -> (loaned: Option<
    &z_loaned_memory_layout_t,
>)
    ensures
        loaned == this_,
{
    this_
}

/// Frees a memory layout.
pub fn z_memory_layout_drop(this_: Option<&mut z_moved_memory_layout_t>)
    ensures
        this_ matches Some(moved) ==> final(moved)._this.state is None,
{
    let _ = take(this_);
}

/// Makes a memory layout the gravestone.
pub fn z_internal_memory_layout_null(this_: Option<&mut z_owned_memory_layout_t>)
    ensures
        this_ matches Some(slot) ==> final(slot).state is None,
{
    gravestone(this_)
}

/// Whether a memory layout is live.
pub fn z_internal_memory_layout_check(this_: Option<&z_owned_memory_layout_t>) -> (r: bool)
    ensures
        r == (live(this_) is Some),
{
    is_live(this_)
}

} // verus!
