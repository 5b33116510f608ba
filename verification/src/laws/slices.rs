//! Laws of slices and strings.

use vstd::prelude::*;
use vstd::utf8::encode_utf8;

use crate::result::ZResult;
use crate::slice::owned_slice_from;
use crate::slice::take_moved_slice;
use crate::slice::view_slice_over;
use crate::slice::z_internal_slice_check;
use crate::slice::z_loaned_slice_t;
use crate::slice::z_moved_slice_t;
use crate::slice::z_slice_clone;
use crate::slice::z_slice_copy_from_buf;
use crate::slice::z_slice_data;
use crate::slice::z_slice_drop;
use crate::slice::z_slice_empty;
use crate::slice::z_slice_from_buf;
use crate::slice::z_slice_is_empty;
use crate::slice::z_slice_len;
use crate::slice::z_view_slice_empty;
use crate::slice::z_view_slice_from_buf;
use crate::slice::BufferDeletion;
use crate::slice::SliceRepr;
use crate::string::owned_string_from;
use crate::string::same_text;
use crate::string::view_string_over;

verus! {

/// What is read of a slice is its bytes, held or viewed. A dead slice has no bytes
/// and no length, and an empty one is not dead.
pub proof fn lemma_a_slice_is_read_as_it_is<'b>(
    this_: Option<&'b z_loaned_slice_t<'b>>,
    bytes: Option<&'b [u8]>,
    len: usize,
    empty: bool,
    check: bool,
)
    requires
        call_ensures(z_slice_data, (this_,), bytes),
        call_ensures(z_slice_len, (this_,), len),
        call_ensures(z_slice_is_empty, (this_,), empty),
        call_ensures(z_internal_slice_check, (this_,), check),
    ensures
        bytes is Some == (this_ is Some && !(*this_->0 is Null)),
        check == bytes is Some,
        bytes is Some && *this_->0 is Held ==> bytes->0@ == this_->0->Held_0@,
        bytes is Some && *this_->0 is Viewed ==> bytes->0@ == this_->0->Viewed_0@,
        bytes is Some ==> len == bytes->0@.len(),
        bytes is None ==> len == 0,
        empty == (len == 0),
{
}

/// A slice that is built over a buffer holds its first bytes, as many as were asked
/// for, and a dead one comes of a null buffer.
pub proof fn lemma_a_slice_holds_the_first_bytes(
    slot: &mut SliceRepr,
    start: Option<&[u8]>,
    len: usize,
    code: ZResult,
)
    requires
        start is Some ==> len <= start->0@.len(),
        call_ensures(z_slice_copy_from_buf, (Some(slot), start, len), code),
    ensures
        code == (if start is Some {
            0i8
        } else {
            -5i8
        }),
        start is Some ==> *final(slot) is Held && final(slot)->Held_0@ == start->0@.take(
            len as int,
        ),
        start is None ==> *final(slot) is Null,
{
}

/// A buffer that is handed over is copied as any other, and its deleter is due in any
/// case, with the buffer and the context it was given.
pub proof fn lemma_a_buffer_handed_over_is_deleted(
    slot: Option<&mut SliceRepr>,
    data: Option<&[u8]>,
    address: usize,
    len: usize,
    drop: Option<usize>,
    context: usize,
    r: (ZResult, Option<BufferDeletion>),
)
    requires
        data is Some ==> len <= data->0@.len(),
        call_ensures(z_slice_from_buf, (slot, data, address, len, drop, context), r),
    ensures
        r.0 == (if slot is Some && data is Some {
            0i8
        } else {
            -5i8
        }),
        slot matches Some(s) ==> {
            &&& data is Some ==> *final(s) is Held && final(s)->Held_0@ == data->0@.take(len as int)
            &&& data is None ==> *final(s) is Null
        },
        r.1 is Some == drop is Some,
        r.1 is Some ==> r.1->0.delete == drop->0 && r.1->0.data == address && r.1->0.context
            == context,
{
}

/// A view is of the first bytes of the caller's buffer, and of none where there is no
/// buffer.
pub proof fn lemma_a_view_is_of_the_first_bytes<'a>(
    slot: &mut SliceRepr<'a>,
    start: Option<&'a [u8]>,
    len: usize,
    code: ZResult,
    empty: &mut SliceRepr<'a>,
)
    requires
        start is Some ==> len <= start->0@.len(),
        call_ensures(z_view_slice_from_buf, (Some(slot), start, len), code),
        call_ensures(z_view_slice_empty, (Some(empty),), ()),
    ensures
        code == (if start is Some {
            0i8
        } else {
            -5i8
        }),
        *final(slot) is Viewed,
        start is Some ==> final(slot)->Viewed_0@ == start->0@.take(len as int),
        start is None ==> final(slot)->Viewed_0@.len() == 0,
        *final(empty) is Viewed && final(empty)->Viewed_0@.len() == 0,
{
}

/// A copy of a slice holds the same bytes, and one of a dead slice is dead. Taking and
/// dropping leave a dead one behind, and taking gives the bytes.
pub proof fn lemma_a_slice_is_copied_and_taken_whole<'a>(
    dst: &mut SliceRepr<'a>,
    this_: SliceRepr<'a>,
    moved: &mut z_moved_slice_t<'a>,
    taken: Option<Vec<u8>>,
    dropped: &mut z_moved_slice_t<'a>,
    empty: &mut SliceRepr<'a>,
)
    requires
        call_ensures(z_slice_clone, (Some(dst), Some(&this_)), ()),
        call_ensures(take_moved_slice, (Some(moved),), taken),
        call_ensures(z_slice_drop, (Some(dropped),), ()),
        call_ensures(z_slice_empty, (Some(empty),), ()),
    ensures
        this_ is Null ==> *final(dst) is Null,
        this_ is Held ==> *final(dst) is Held && final(dst)->Held_0@ == this_->Held_0@,
        this_ is Viewed ==> *final(dst) is Held && final(dst)->Held_0@ == this_->Viewed_0@,
        final(moved)._this is Null,
        taken is Some == !(old(moved)._this is Null),
        old(moved)._this is Held ==> taken->0@ == old(moved)._this->Held_0@,
        old(moved)._this is Viewed ==> taken->0@ == old(moved)._this->Viewed_0@,
        final(dropped)._this is Null,
        *final(empty) is Held && final(empty)->Held_0@.len() == 0,
{
}

/// Slices and strings are made of the bytes they are given, and a text is viewed as
/// its bytes. Texts are the same exactly where their characters are.
pub proof fn lemma_strings_are_their_bytes<'a>(
    bytes: &'a [u8],
    slice: SliceRepr<'a>,
    view: SliceRepr<'a>,
    string: SliceRepr<'a>,
    text: &'a str,
    seen: SliceRepr<'a>,
    other: &str,
    same: bool,
)
    requires
        call_ensures(owned_slice_from, (bytes,), slice),
        call_ensures(view_slice_over, (bytes,), view),
        call_ensures(owned_string_from, (bytes,), string),
        call_ensures(view_string_over, (text,), seen),
        call_ensures(same_text, (text, other), same),
    ensures
        slice is Held && slice->Held_0@ == bytes@,
        view is Viewed && view->Viewed_0@ == bytes@,
        string is Held && string->Held_0@ == bytes@,
        seen is Viewed && seen->Viewed_0@ == encode_utf8(text@),
        same == (text@ == other@),
{
}

} // verus!
