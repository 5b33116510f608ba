//! Strings at the interface: bytes with a length, owned or viewed.

use vstd::prelude::*;
use vstd::utf8::encode_utf8;

use crate::bytes::copy_slice;
use crate::slice::SliceRepr;

verus! {

/// An owned string.
pub type z_owned_string_t<'a> = SliceRepr<'a>;

/// A view of a string.
pub type z_view_string_t<'a> = SliceRepr<'a>;

/// The shape both are read through.
pub type z_loaned_string_t<'a> = SliceRepr<'a>;

/// An owned string with a copy of `bytes`.
pub fn owned_string_from<'a>(bytes: &[u8]) -> (string: z_owned_string_t<'a>)
    ensures
        string is Held,
        string.bytes() == Some(bytes@),
{
    SliceRepr::Held(copy_slice(bytes))
}

/// A view of the bytes of `text`.
pub fn view_string_over<'a>(text: &'a str) -> (string: z_view_string_t<'a>)
    ensures
        string is Viewed,
        string.bytes() == Some(encode_utf8(text@)),
{
    SliceRepr::Viewed(text.as_bytes())
}

/// Whether two texts have the same characters.
pub fn same_text(a: &str, b: &str) -> (r: bool)
    ensures
        r == (a@ == b@),
{
    let a = a.to_owned();
    let b = b.to_owned();
    a == b
}

} // verus!
