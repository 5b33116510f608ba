//! Byte slices, owned and viewed.
//!
//! An owned slice holds its bytes and a view borrows a caller's; both are read
//! through one borrowed shape. The gravestone is a third state, not the empty
//! slice: an empty slice is live.

use vstd::prelude::*;

use crate::bytes::copy_slice;
use crate::result::ZResult;
use crate::result::Z_ENULL;
use crate::result::Z_OK;

verus! {

/// A slice: the gravestone, bytes that it owns, or bytes of a caller.
pub enum SliceRepr<'a> {
    Null,
    Held(Vec<u8>),
    Viewed(&'a [u8]),
}

/// An owned slice.
pub type z_owned_slice_t<'a> = SliceRepr<'a>;

/// A view of a caller's bytes.
pub type z_view_slice_t<'a> = SliceRepr<'a>;

/// The shape both are read through.
pub type z_loaned_slice_t<'a> = SliceRepr<'a>;

/// A slice on its way to be consumed.
pub struct z_moved_slice_t<'a> {
    pub _this: z_owned_slice_t<'a>,
}

impl<'a> SliceRepr<'a> {
    /// The bytes, where the slice is live.
    pub open spec fn bytes(&self) -> Option<Seq<u8>> {
        match self {
            SliceRepr::Null => None,
            SliceRepr::Held(bytes) => Some(bytes@),
            SliceRepr::Viewed(bytes) => Some(bytes@),
        }
    }
}

/// The bytes behind a nullable slice.
pub open spec fn bytes_of(this_: Option<&z_loaned_slice_t>) -> Option<Seq<u8>> {
    match this_ {
        Some(slice) => slice.bytes(),
        None => None,
    }
}

/// An owned slice with a copy of `bytes`.
pub fn owned_slice_from<'a>(bytes: &[u8]) -> (slice: z_owned_slice_t<'a>)
    ensures
        slice is Held,
        slice.bytes() == Some(bytes@),
{
    SliceRepr::Held(copy_slice(bytes))
}

/// A view of `bytes`.
pub fn view_slice_over<'a>(bytes: &'a [u8]) -> (slice: z_view_slice_t<'a>)
    ensures
        slice == SliceRepr::Viewed(bytes),
{
    SliceRepr::Viewed(bytes)
}

/// The gravestone.
pub fn null_slice<'a>() -> (slice: z_owned_slice_t<'a>)
    ensures
        slice is Null,
{
    SliceRepr::Null
}

/// The bytes behind a nullable slice.
pub fn loaned_slice_bytes<'b>(this_: Option<&'b z_loaned_slice_t<'b>>) -> (bytes: Option<&'b [u8]>)
    ensures
        match bytes {
            Some(bytes) => bytes_of(this_) == Some(bytes@),
            None => bytes_of(this_) is None,
        },
{
    match this_ {
        Some(SliceRepr::Held(bytes)) => Some(bytes.as_slice()),
        Some(SliceRepr::Viewed(bytes)) => Some(bytes),
        _ => None,
    }
}

/// A slice's bytes.
pub fn z_slice_data<'b>(this_: Option<&'b z_loaned_slice_t<'b>>) -> (bytes: Option<&'b [u8]>)
    ensures
        match bytes {
            Some(bytes) => bytes_of(this_) == Some(bytes@),
            None => bytes_of(this_) is None,
        },
{
    loaned_slice_bytes(this_)
}

/// A slice's length. A dead slice has none.
pub fn z_slice_len(this_: Option<&z_loaned_slice_t>) -> (len: usize)
    ensures
        len == (match bytes_of(this_) {
            Some(bytes) => bytes.len(),
            None => 0,
        }),
{
    match loaned_slice_bytes(this_) {
        Some(bytes) => bytes.len(),
        None => 0,
    }
}

/// Whether a slice has no bytes. A dead slice has none.
pub fn z_slice_is_empty(this_: Option<&z_loaned_slice_t>) -> (r: bool)
    ensures
        r == (match bytes_of(this_) {
            Some(bytes) => bytes.len() == 0,
            None => true,
        }),
{
    z_slice_len(this_) == 0
}

/// Borrows an owned slice.
pub fn z_slice_loan<'b>(this_: Option<&'b z_owned_slice_t<'b>>) -> (loaned: Option<
    &'b z_loaned_slice_t<'b>,
>)
    ensures
        loaned == this_,
{
    this_
}

/// Borrows a view.
pub fn z_view_slice_loan<'b>(this_: Option<&'b z_view_slice_t<'b>>) -> (loaned: Option<
    &'b z_loaned_slice_t<'b>,
>)
    ensures
        loaned == this_,
{
    this_
}

/// Whether an owned slice is live.
pub fn z_internal_slice_check(this_: Option<&z_owned_slice_t>) -> (r: bool)
    ensures
        r == (bytes_of(this_) is Some),
{
    loaned_slice_bytes(this_).is_some()
}

/// Makes an owned slice the gravestone.
pub fn z_internal_slice_null(this_: Option<&mut z_owned_slice_t>)
    ensures
        this_ matches Some(slot) ==> *final(slot) is Null,
{
    if let Some(slot) = this_ {
        *slot = SliceRepr::Null;
    }
}

/// Frees a slice and leaves the gravestone. A view owns nothing, so the bytes it
/// viewed stay as they are.
pub fn z_slice_drop(this_: Option<&mut z_moved_slice_t>)
    ensures
        this_ matches Some(moved) ==> final(moved)._this is Null,
{
    if let Some(moved) = this_ {
        moved._this = SliceRepr::Null;
    }
}

/// Makes an empty owned slice.
pub fn z_slice_empty(this_: Option<&mut z_owned_slice_t>)
    ensures
        this_ matches Some(slot) ==> *final(slot) is Held && final(slot).bytes() == Some(
            Seq::<u8>::empty(),
        ),
{
    if let Some(slot) = this_ {
        *slot = SliceRepr::Held(Vec::new());
    }
}

/// Consumes a moved slice: takes its bytes and leaves the gravestone. The bytes
/// of a view are copied.
pub fn take_moved_slice(moved: Option<&mut z_moved_slice_t>) -> (taken: Option<Vec<u8>>)
    ensures
        match moved {
            Some(m) => {
                &&& final(m)._this is Null
                &&& match taken {
                    Some(bytes) => m._this.bytes() == Some(bytes@),
                    None => m._this.bytes() is None,
                }
            },
            None => taken is None,
        },
{
    match moved {
        None => None,
        Some(m) => {
            let taken = match &m._this {
                SliceRepr::Null => None,
                SliceRepr::Held(bytes) => Some(copy_slice(bytes.as_slice())),
                SliceRepr::Viewed(bytes) => Some(copy_slice(bytes)),
            };
            m._this = SliceRepr::Null;
            taken
        },
    }
}

/// Copies a slice. A copy of a dead one is dead.
pub fn z_slice_clone(dst: Option<&mut z_owned_slice_t>, this_: Option<&z_loaned_slice_t>)
    ensures
        dst matches Some(slot) ==> {
            &&& final(slot).bytes() == bytes_of(this_)
            &&& !(*final(slot) is Viewed)
        },
{
    if let Some(slot) = dst {
        *slot = match loaned_slice_bytes(this_) {
            Some(bytes) => owned_slice_from(bytes),
            None => SliceRepr::Null,
        };
    }
}

/// What building a slice over a caller's buffer returns.
pub open spec fn buffer_code(this_is_null: bool, data_is_null: bool) -> ZResult {
    if this_is_null || data_is_null {
        Z_ENULL
    } else {
        Z_OK
    }
}

/// The first `len` bytes of a nullable buffer.
pub open spec fn first_bytes(data: Option<&[u8]>, len: usize) -> Option<Seq<u8>> {
    match data {
        Some(bytes) => Some(bytes@.take(len as int)),
        None => None,
    }
}

fn copy_first(bytes: &[u8], len: usize) -> (copy: Vec<u8>)
    requires
        len <= bytes@.len(),
    ensures
        copy@ == bytes@.take(len as int),
{
    let mut copy: Vec<u8> = Vec::new();
    let mut i: usize = 0;
    while i < len
        invariant
            i <= len <= bytes@.len(),
            copy@ == bytes@.take(i as int),
        decreases len - i,
    {
        copy.push(bytes[i]);
        i = i + 1;
        assert(copy@ =~= bytes@.take(i as int));
    }
    copy
}

/// Copies the first `len` bytes of a buffer into an owned slice.
pub fn z_slice_copy_from_buf(
    this_: Option<&mut z_owned_slice_t>,
    start: Option<&[u8]>,
    len: usize,
) -> (code: ZResult)
    requires
        start matches Some(bytes) ==> len <= bytes@.len(),
    ensures
        code == buffer_code(this_ is None, start is None),
        this_ matches Some(slot) ==> !(*final(slot) is Viewed) && final(slot).bytes()
            == first_bytes(start, len),
{
    match this_ {
        None => Z_ENULL,
        Some(slot) => {
            *slot = SliceRepr::Null;
            match start {
                None => Z_ENULL,
                Some(bytes) => {
                    *slot = SliceRepr::Held(copy_first(bytes, len));
                    Z_OK
                },
            }
        },
    }
}

/// A call of a buffer's deleter, due now and once. It takes the buffer and a
/// context.
#[derive(Clone, Copy, Debug, PartialEq, Eq, Structural)]
pub struct BufferDeletion {
    pub delete: usize,
    /// Where the buffer is.
    pub data: usize,
    pub context: usize,
}

/// Adopts a caller's buffer into an owned slice: the bytes are copied, and the
/// caller's deleter is due on every path, as the buffer was handed over on every
/// path. It is called with the buffer, which is at `address`, and the context.
pub fn z_slice_from_buf(
    this_: Option<&mut z_owned_slice_t>,
    data: Option<&[u8]>,
    address: usize,
    len: usize,
    drop: Option<usize>,
    context: usize,
) -> (r: (ZResult, Option<BufferDeletion>))
    requires
        data matches Some(bytes) ==> len <= bytes@.len(),
    ensures
        r.0 == buffer_code(this_ is None, data is None),
        this_ matches Some(slot) ==> !(*final(slot) is Viewed) && final(slot).bytes()
            == first_bytes(data, len),
        r.1 == (match drop {
            Some(delete) => Some(BufferDeletion { delete, data: address, context }),
            None => None,
        }),
{
    let code = z_slice_copy_from_buf(this_, data, len);
    let due = match drop {
        Some(delete) => Some(BufferDeletion { delete, data: address, context }),
        None => None,
    };
    (code, due)
}

/// Makes a view of no bytes. It is live.
pub fn z_view_slice_empty<'a>(this_: Option<&mut z_view_slice_t<'a>>)
    ensures
        this_ matches Some(slot) ==> *final(slot) is Viewed && final(slot).bytes() == Some(
            Seq::<u8>::empty(),
        ),
{
    if let Some(slot) = this_ {
        let none: &'static [u8] = &[];
        *slot = SliceRepr::Viewed(none);
        assert(slot.bytes() == Some(Seq::<u8>::empty())) by {
            assert(none@ =~= Seq::<u8>::empty());
        }
    }
}

/// Whether a view has no bytes.
pub fn z_view_slice_is_empty(this_: Option<&z_view_slice_t>) -> (r: bool)
    ensures
        r == (match bytes_of(this_) {
            Some(bytes) => bytes.len() == 0,
            None => true,
        }),
{
    z_slice_is_empty(this_)
}

/// Makes a view of the first `len` bytes of a caller's buffer. No byte is copied.
/// A null buffer leaves the view of no bytes.
pub fn z_view_slice_from_buf<'a>(
    this_: Option<&mut z_view_slice_t<'a>>,
    start: Option<&'a [u8]>,
    len: usize,
) -> (code: ZResult)
    requires
        start matches Some(bytes) ==> len <= bytes@.len(),
    ensures
        code == buffer_code(this_ is None, start is None),
        this_ matches Some(slot) ==> *final(slot) is Viewed && final(slot).bytes() == Some(
            match start {
                Some(bytes) => bytes@.take(len as int),
                None => Seq::<u8>::empty(),
            },
        ),
{
    match this_ {
        None => Z_ENULL,
        Some(slot) => {
            match start {
                None => {
                    z_view_slice_empty(Some(slot));
                    Z_ENULL
                },
                Some(bytes) => {
                    let view = vstd::slice::slice_subrange(bytes, 0, len);
                    assert(view@ =~= bytes@.take(len as int));
                    *slot = SliceRepr::Viewed(view);
                    Z_OK
                },
            }
        },
    }
}

} // verus!
