//! Laws of key expressions.

use vstd::prelude::*;
use vstd::utf8::decode_utf8;
use vstd::utf8::encode_utf8;
use vstd::utf8::valid_utf8;

use crate::keyexpr::ask;
use crate::keyexpr::canon_says;
use crate::keyexpr::canonized_in_place;
use crate::keyexpr::ends_at;
use crate::keyexpr::rewritten;
use crate::keyexpr::stored_run;
use crate::keyexpr::z_declare_keyexpr;
use crate::keyexpr::z_keyexpr_canonize;
use crate::keyexpr::z_keyexpr_canonize_null_terminated;
use crate::keyexpr::z_keyexpr_clone;
use crate::keyexpr::z_keyexpr_concat;
use crate::keyexpr::z_keyexpr_drop;
use crate::keyexpr::z_keyexpr_equals;
use crate::keyexpr::z_keyexpr_from_str;
use crate::keyexpr::z_keyexpr_from_str_autocanonize;
use crate::keyexpr::z_keyexpr_from_substr;
use crate::keyexpr::z_keyexpr_from_substr_autocanonize;
use crate::keyexpr::z_keyexpr_includes;
use crate::keyexpr::z_keyexpr_intersects;
use crate::keyexpr::z_keyexpr_is_canon;
use crate::keyexpr::z_keyexpr_join;
use crate::keyexpr::z_keyexpr_relation_to;
use crate::keyexpr::z_loaned_keyexpr_t;
use crate::keyexpr::z_moved_keyexpr_t;
use crate::keyexpr::z_owned_keyexpr_t;
use crate::keyexpr::z_undeclare_keyexpr;
use crate::keyexpr::z_view_keyexpr_from_str;
use crate::keyexpr::z_view_keyexpr_from_str_autocanonize;
use crate::keyexpr::z_view_keyexpr_from_str_unchecked;
use crate::keyexpr::z_view_keyexpr_from_substr;
use crate::keyexpr::z_view_keyexpr_from_substr_autocanonize;
use crate::keyexpr::z_view_keyexpr_from_substr_unchecked;
use crate::keyexpr::z_view_keyexpr_t;
use crate::keyexpr::KeyexprRetraction;
use crate::result::ZResult;
use crate::session::z_loaned_session_t;
use crate::text::is_split;
use crate::text::joined;
use crate::text::texts;

verus! {

/// An owned key expression is built from a text exactly where the text is not empty
/// and is its own canonical form, and then holds it.
pub proof fn lemma_an_owned_keyexpr_is_a_canonical_text<K: Fn(&str) -> Option<String>>(
    slot: &mut z_owned_keyexpr_t,
    bytes: &[u8],
    canon: &K,
    code: ZResult,
)
    requires
        call_ensures(z_keyexpr_from_str::<K>, (Some(slot), Some(bytes), canon), code),
    ensures
        code == 0 || code == -1,
        final(slot).state is Some == (code == 0),
        !valid_utf8(bytes@) ==> code == -1,
        valid_utf8(bytes@) ==> {
            let text = decode_utf8(bytes@);
            &&& text.len() == 0 ==> code == -1
            &&& code == 0 ==> final(slot).state->0.keyexpr@ == text
                && final(slot).state->0.mapping is None
            &&& text.len() > 0 ==> exists|t: &str, form: Option<String>|
                {
                    &&& #[trigger] call_ensures(*canon, (t,), form)
                    &&& t@ == text
                    &&& code == 0 <==> form is Some && form->0@ == text
                }
        },
{
}

/// A view is built from a text by the same rule.
pub proof fn lemma_a_viewed_keyexpr_is_a_canonical_text<K: Fn(&str) -> Option<String>>(
    slot: &mut z_view_keyexpr_t,
    bytes: &[u8],
    canon: &K,
    code: ZResult,
)
    requires
        call_ensures(z_view_keyexpr_from_str::<K>, (Some(slot), Some(bytes), canon), code),
    ensures
        code == 0 || code == -1,
        final(slot).state is Some == (code == 0),
        !valid_utf8(bytes@) ==> code == -1,
        valid_utf8(bytes@) ==> {
            let text = decode_utf8(bytes@);
            &&& text.len() == 0 ==> code == -1
            &&& code == 0 ==> final(slot).state->0.keyexpr@ == text
                && final(slot).state->0.mapping is None
            &&& text.len() > 0 ==> exists|t: &str, form: Option<String>|
                {
                    &&& #[trigger] call_ensures(*canon, (t,), form)
                    &&& t@ == text
                    &&& code == 0 <==> form is Some && form->0@ == text
                }
        },
{
}

/// From counted bytes an owned key expression is built of exactly that many.
pub proof fn lemma_an_owned_keyexpr_of_counted_bytes<K: Fn(&str) -> Option<String>>(
    slot: &mut z_owned_keyexpr_t,
    bytes: &[u8],
    len: usize,
    canon: &K,
    code: ZResult,
)
    requires
        call_ensures(z_keyexpr_from_substr::<K>, (Some(slot), Some(bytes), len, canon), code),
        len <= bytes@.len(),
    ensures
        code == 0 || code == -1,
        final(slot).state is Some == (code == 0),
        !valid_utf8(bytes@.take(len as int)) ==> code == -1,
        valid_utf8(bytes@.take(len as int)) ==> {
            let text = decode_utf8(bytes@.take(len as int));
            &&& text.len() == 0 ==> code == -1
            &&& code == 0 ==> final(slot).state->0.keyexpr@ == text
                && final(slot).state->0.mapping is None
            &&& text.len() > 0 ==> exists|t: &str, form: Option<String>|
                {
                    &&& #[trigger] call_ensures(*canon, (t,), form)
                    &&& t@ == text
                    &&& code == 0 <==> form is Some && form->0@ == text
                }
        },
{
}

/// From counted bytes a view is built of exactly that many.
pub proof fn lemma_a_viewed_keyexpr_of_counted_bytes<K: Fn(&str) -> Option<String>>(
    slot: &mut z_view_keyexpr_t,
    bytes: &[u8],
    len: usize,
    canon: &K,
    code: ZResult,
)
    requires
        call_ensures(z_view_keyexpr_from_substr::<K>, (Some(slot), Some(bytes), len, canon), code),
        len <= bytes@.len(),
    ensures
        code == 0 || code == -1,
        final(slot).state is Some == (code == 0),
        !valid_utf8(bytes@.take(len as int)) ==> code == -1,
        valid_utf8(bytes@.take(len as int)) ==> {
            let text = decode_utf8(bytes@.take(len as int));
            &&& text.len() == 0 ==> code == -1
            &&& code == 0 ==> final(slot).state->0.keyexpr@ == text
                && final(slot).state->0.mapping is None
            &&& text.len() > 0 ==> exists|t: &str, form: Option<String>|
                {
                    &&& #[trigger] call_ensures(*canon, (t,), form)
                    &&& t@ == text
                    &&& code == 0 <==> form is Some && form->0@ == text
                }
        },
{
}

/// Without a check a view holds whatever text there is, and nothing where there is
/// none.
pub proof fn lemma_an_unchecked_view_holds_its_text(
    slot: &mut z_view_keyexpr_t,
    s: Option<&[u8]>,
    counted: &mut z_view_keyexpr_t,
    start: Option<&[u8]>,
    len: usize,
)
    requires
        call_ensures(z_view_keyexpr_from_str_unchecked, (Some(slot), s), ()),
        call_ensures(z_view_keyexpr_from_substr_unchecked, (Some(counted), start, len), ()),
        start is Some ==> len <= start->0@.len(),
    ensures
        final(slot).state is Some == (s is Some && valid_utf8(s->0@)),
        final(slot).state is Some ==> final(slot).state->0.keyexpr@ == decode_utf8(s->0@)
            && final(slot).state->0.mapping is None,
        final(counted).state is Some == (start is Some && valid_utf8(
            start->0@.take(len as int),
        )),
        final(counted).state is Some ==> final(counted).state->0.keyexpr@ == decode_utf8(
            start->0@.take(len as int),
        ),
{
}

/// Canonizing in place asks for the canonical form of the text that is there and
/// puts its bytes in front, where they have room; the bytes behind stay. Where there
/// is no text, no form or no room nothing changes, and no text has a code of its own.
pub proof fn lemma_canonizing_puts_the_form_in_place<K: Fn(&str) -> Option<String>>(
    buffer: &mut Vec<u8>,
    len: &mut usize,
    canon: &K,
    code: ZResult,
)
    requires
        *old(len) <= old(buffer)@.len(),
        call_ensures(z_keyexpr_canonize::<K>, (Some(buffer), Some(len), canon), code),
    ensures
        !valid_utf8(old(buffer)@.take(*old(len) as int)) ==> code == -2,
        code != 0 ==> final(buffer)@ == old(buffer)@ && *final(len) == *old(len),
        valid_utf8(old(buffer)@.take(*old(len) as int)) ==> (code == 0 || code == -1) && exists|
            t: &str,
            form: Option<String>,
        |
            {
                &&& #[trigger] call_ensures(*canon, (t,), form)
                &&& t@ == decode_utf8(old(buffer)@.take(*old(len) as int))
                &&& code == 0 <==> form is Some && encode_utf8(form->0@).len() <= *old(len)
                &&& code == 0 ==> {
                    let bytes = encode_utf8(form->0@);
                    &&& *final(len) == bytes.len()
                    &&& final(buffer)@.len() == old(buffer)@.len()
                    &&& final(buffer)@.take(bytes.len() as int) == bytes
                    &&& final(buffer)@.skip(bytes.len() as int) == old(buffer)@.skip(
                        bytes.len() as int,
                    )
                }
            },
{
    let run = old(buffer)@.take(*old(len) as int);
    if valid_utf8(run) {
        let form = choose|form: Option<Seq<char>>| #[trigger]
            canon_says(*canon, decode_utf8(run), form) && rewritten(
                old(buffer)@,
                *old(len),
                form,
                final(buffer)@,
                *final(len),
                code,
            );
        if form is Some {
            let bytes = encode_utf8(form->0);
            if code == 0 {
                assert(final(buffer)@.take(bytes.len() as int) =~= bytes);
                assert(final(buffer)@.skip(bytes.len() as int) =~= old(buffer)@.skip(
                    bytes.len() as int,
                ));
            }
        }
    }
}

/// A C string that is canonized in place holds its canonical form up to its new end,
/// and stays as it was where it cannot be canonized.
pub proof fn lemma_a_canonized_c_string_ends_behind_its_form<K: Fn(&str) -> Option<String>>(
    buffer: &mut Vec<u8>,
    canon: &K,
    code: ZResult,
    n: int,
)
    requires
        call_ensures(z_keyexpr_canonize_null_terminated::<K>, (Some(buffer), canon), code),
        0 <= n < old(buffer)@.len(),
        old(buffer)@[n] == 0,
        forall|i: int| 0 <= i < n ==> #[trigger] old(buffer)@[i] != 0,
    ensures
        code != 0 ==> final(buffer)@ == old(buffer)@,
        !valid_utf8(old(buffer)@.take(n)) ==> code == -2,
        valid_utf8(old(buffer)@.take(n)) ==> (code == 0 || code == -1) && exists|
            t: &str,
            form: Option<String>,
        |
            {
                &&& #[trigger] call_ensures(*canon, (t,), form)
                &&& t@ == decode_utf8(old(buffer)@.take(n))
                &&& code == 0 <==> form is Some && encode_utf8(form->0@).len() <= n
                &&& code == 0 ==> {
                    let bytes = encode_utf8(form->0@);
                    &&& final(buffer)@.len() == old(buffer)@.len()
                    &&& final(buffer)@.take(bytes.len() as int) == bytes
                    &&& final(buffer)@[bytes.len() as int] == 0
                }
            },
{
    let m = choose|m: usize| #[trigger]
        ends_at(old(buffer)@, m as int) && crate::keyexpr::canonized_c_string(
            *canon,
            old(buffer)@,
            m,
            final(buffer)@,
            code,
        );
    assert(m == n) by {
        if m < n {
            assert(old(buffer)@[m as int] != 0);
        }
        if n < m {
            assert(old(buffer)@[n] != 0);
        }
    }
    let (middle, after) = choose|middle: Seq<u8>, after: usize| #[trigger]
        canonized_in_place(*canon, old(buffer)@, m, middle, after, code) && final(buffer)@ == (
        if code == 0 {
            middle.update(after as int, 0)
        } else {
            old(buffer)@
        });
    let run = old(buffer)@.take(n);
    if valid_utf8(run) {
        let form = choose|form: Option<Seq<char>>| #[trigger]
            canon_says(*canon, decode_utf8(run), form) && rewritten(
                old(buffer)@,
                m,
                form,
                middle,
                after,
                code,
            );
        if code == 0 {
            let bytes = encode_utf8(form->0);
            assert(final(buffer)@.take(bytes.len() as int) =~= bytes);
        }
    }
}

/// A key expression that is built from counted bytes and canonized holds the
/// canonical form, and so do the bytes and their length. Otherwise it holds nothing
/// and they stay as they were.
pub proof fn lemma_autocanonized_bytes_hold_the_form<K: Fn(&str) -> Option<String>>(
    slot: &mut z_owned_keyexpr_t,
    buffer: &mut Vec<u8>,
    len: &mut usize,
    canon: &K,
    code: ZResult,
)
    requires
        *old(len) <= old(buffer)@.len(),
        call_ensures(
            z_keyexpr_from_substr_autocanonize::<K>,
            (Some(slot), Some(buffer), Some(len), canon),
            code,
        ),
    ensures
        code == 0 || code == -1,
        !valid_utf8(old(buffer)@.take(*old(len) as int)) ==> code == -1,
        final(slot).state is Some == (code == 0),
        code != 0 ==> final(buffer)@ == old(buffer)@ && *final(len) == *old(len),
        valid_utf8(old(buffer)@.take(*old(len) as int)) ==> exists|t: &str, form: Option<String>|
            {
                &&& #[trigger] call_ensures(*canon, (t,), form)
                &&& t@ == decode_utf8(old(buffer)@.take(*old(len) as int))
                &&& code == 0 <==> form is Some && encode_utf8(form->0@).len() <= *old(len)
                &&& code == 0 ==> {
                    let bytes = encode_utf8(form->0@);
                    &&& final(slot).state->0.keyexpr@ == form->0@
                    &&& final(slot).state->0.mapping is None
                    &&& *final(len) == bytes.len()
                    &&& final(buffer)@.len() == old(buffer)@.len()
                    &&& final(buffer)@.take(bytes.len() as int) == bytes
                }
            },
{
    let run = old(buffer)@.take(*old(len) as int);
    if valid_utf8(run) {
        let form = choose|form: Option<Seq<char>>| #[trigger]
            canon_says(*canon, decode_utf8(run), form) && rewritten(
                old(buffer)@,
                *old(len),
                form,
                final(buffer)@,
                *final(len),
                code,
            ) && crate::keyexpr::holds_text(
                *final(slot),
                if code == 0 {
                    form
                } else {
                    None
                },
            );
        if code == 0 {
            let bytes = encode_utf8(form->0);
            assert(final(buffer)@.take(bytes.len() as int) =~= bytes);
        }
    }
}

/// A key expression that is built from a C string and canonized holds the canonical
/// form, and the string is ended behind it.
pub proof fn lemma_an_autocanonized_c_string_holds_the_form<K: Fn(&str) -> Option<String>>(
    slot: &mut z_owned_keyexpr_t,
    buffer: &mut Vec<u8>,
    canon: &K,
    code: ZResult,
    n: int,
)
    requires
        call_ensures(
            z_keyexpr_from_str_autocanonize::<K>,
            (Some(slot), Some(buffer), canon),
            code,
        ),
        0 <= n < old(buffer)@.len(),
        old(buffer)@[n] == 0,
        forall|i: int| 0 <= i < n ==> #[trigger] old(buffer)@[i] != 0,
    ensures
        code == 0 || code == -1,
        !valid_utf8(old(buffer)@.take(n)) ==> code == -1,
        final(slot).state is Some == (code == 0),
        code != 0 ==> final(buffer)@ == old(buffer)@,
        valid_utf8(old(buffer)@.take(n)) ==> exists|t: &str, form: Option<String>|
            {
                &&& #[trigger] call_ensures(*canon, (t,), form)
                &&& t@ == decode_utf8(old(buffer)@.take(n))
                &&& code == 0 <==> form is Some && encode_utf8(form->0@).len() <= n
                &&& code == 0 ==> {
                    let bytes = encode_utf8(form->0@);
                    &&& final(slot).state->0.keyexpr@ == form->0@
                    &&& final(buffer)@.len() == old(buffer)@.len()
                    &&& final(buffer)@.take(bytes.len() as int) == bytes
                    &&& final(buffer)@[bytes.len() as int] == 0
                }
            },
{
    let m = choose|m: usize| #[trigger]
        ends_at(old(buffer)@, m as int) && crate::keyexpr::stored_c_string(
            *canon,
            old(buffer)@,
            m,
            final(buffer)@,
            code,
            *final(slot),
        );
    assert(m == n) by {
        if m < n {
            assert(old(buffer)@[m as int] != 0);
        }
        if n < m {
            assert(old(buffer)@[n] != 0);
        }
    }
    let (middle, after) = choose|middle: Seq<u8>, after: usize| #[trigger]
        stored_run(*canon, old(buffer)@, m, middle, after, code, *final(slot)) && final(buffer)@
            == (if code == 0 {
            middle.update(after as int, 0)
        } else {
            old(buffer)@
        });
    let run = old(buffer)@.take(n);
    if valid_utf8(run) {
        let form = choose|form: Option<Seq<char>>| #[trigger]
            canon_says(*canon, decode_utf8(run), form) && rewritten(
                old(buffer)@,
                m,
                form,
                middle,
                after,
                code,
            ) && crate::keyexpr::holds_text(
                *final(slot),
                if code == 0 {
                    form
                } else {
                    None
                },
            );
        if code == 0 {
            let bytes = encode_utf8(form->0);
            assert(final(buffer)@.take(bytes.len() as int) =~= bytes);
        }
    }
}

/// A view over counted bytes that are canonized holds the text that the bytes are
/// left with. Where it is refused it holds nothing.
pub proof fn lemma_an_autocanonized_view_holds_what_is_left<K: Fn(&str) -> Option<String>>(
    slot: &mut z_view_keyexpr_t,
    buffer: &mut Vec<u8>,
    len: &mut usize,
    canon: &K,
    code: ZResult,
    c_slot: &mut z_view_keyexpr_t,
    c_buffer: &mut Vec<u8>,
    c_code: ZResult,
)
    requires
        *old(len) <= old(buffer)@.len(),
        call_ensures(
            z_view_keyexpr_from_substr_autocanonize::<K>,
            (Some(slot), Some(buffer), Some(len), canon),
            code,
        ),
        call_ensures(
            z_view_keyexpr_from_str_autocanonize::<K>,
            (Some(c_slot), Some(c_buffer), canon),
            c_code,
        ),
    ensures
        final(slot).state is Some == (code == 0),
        code == 0 ==> valid_utf8(final(buffer)@.take(*final(len) as int))
            && final(slot).state->0.keyexpr@ == decode_utf8(
            final(buffer)@.take(*final(len) as int),
        ),
        code == 0 ==> exists|t: &str, form: String|
            {
                &&& #[trigger] call_ensures(*canon, (t,), Some(form))
                &&& t@ == decode_utf8(old(buffer)@.take(*old(len) as int))
                &&& encode_utf8(form@) == final(buffer)@.take(*final(len) as int)
            },
        !valid_utf8(old(buffer)@.take(*old(len) as int)) ==> code == -2 && final(buffer)@
            == old(buffer)@,
        final(c_slot).state is Some == (c_code == 0),
        c_code == 0 ==> exists|m: int|
            {
                &&& 0 <= m < final(c_buffer)@.len()
                &&& #[trigger] final(c_buffer)@[m] == 0
                &&& forall|i: int| 0 <= i < m ==> final(c_buffer)@[i] != 0
                &&& valid_utf8(final(c_buffer)@.take(m))
                &&& final(c_slot).state->0.keyexpr@ == decode_utf8(final(c_buffer)@.take(m))
            },
{
    if code == 0 {
        let run = old(buffer)@.take(*old(len) as int);
        let form = choose|form: Option<Seq<char>>| #[trigger]
            canon_says(*canon, decode_utf8(run), form) && rewritten(
                old(buffer)@,
                *old(len),
                form,
                final(buffer)@,
                *final(len),
                0,
            );
        let bytes = encode_utf8(form->0);
        assert(final(buffer)@.take(bytes.len() as int) =~= bytes);
    }
    if c_code == 0 {
        let m = choose|m: usize| #[trigger]
            ends_at(final(c_buffer)@, m as int) && crate::keyexpr::checked(
                *canon,
                final(c_buffer)@.take(m as int),
                c_code,
                *final(c_slot),
            );
        assert(final(c_buffer)@[m as int] == 0);
    }
}

/// Bytes are canonical exactly where their text is its own canonical form; bytes that
/// are no text have a code of their own.
pub proof fn lemma_a_canonical_text_is_its_own_form<K: Fn(&str) -> Option<String>>(
    bytes: &[u8],
    len: usize,
    canon: &K,
    code: ZResult,
)
    requires
        len <= bytes@.len(),
        call_ensures(z_keyexpr_is_canon::<K>, (Some(bytes), len, canon), code),
    ensures
        !valid_utf8(bytes@.take(len as int)) ==> code == -2,
        valid_utf8(bytes@.take(len as int)) ==> (code == 0 || code == -1) && exists|
            t: &str,
            form: Option<String>,
        |
            {
                &&& #[trigger] call_ensures(*canon, (t,), form)
                &&& t@ == decode_utf8(bytes@.take(len as int))
                &&& code == 0 <==> form is Some && form->0@ == t@
            },
{
}

/// A matching function is asked about the chunks of the two texts between their
/// slashes, the left ones first, and its answer is the answer.
pub proof fn lemma_a_matching_function_is_asked_chunk_by_chunk<
    M: Fn(&Vec<String>, &Vec<String>) -> bool,
>(left: &str, right: &str, matcher: &M, answer: bool)
    requires
        call_ensures(ask::<M>, (left, right, matcher), answer),
    ensures
        exists|a: &Vec<String>, b: &Vec<String>|
            {
                &&& #[trigger] call_ensures(*matcher, (a, b), answer)
                &&& joined(texts(a@), '/') == left@
                &&& joined(texts(b@), '/') == right@
                &&& a@.len() > 0 && b@.len() > 0
                &&& forall|i: int| 0 <= i < a@.len() ==> !(#[trigger] a@[i]@).contains('/')
                &&& forall|i: int| 0 <= i < b@.len() ==> !(#[trigger] b@[i]@).contains('/')
            },
{
    let (a, b) = choose|a: &Vec<String>, b: &Vec<String>|
        is_split(left@, '/', texts(a@)) && is_split(right@, '/', texts(b@))
            && #[trigger] call_ensures(*matcher, (a, b), answer);
    assert forall|i: int| 0 <= i < a@.len() implies !(#[trigger] a@[i]@).contains('/') by {
        assert(texts(a@)[i] == a@[i]@);
    }
    assert forall|i: int| 0 <= i < b@.len() implies !(#[trigger] b@[i]@).contains('/') by {
        assert(texts(b@)[i] == b@[i]@);
    }
}

/// Two key expressions are equal exactly where both are live with the same text. A
/// dead one intersects nothing and is included in nothing.
pub proof fn lemma_the_relations_of_two_keyexprs<M: Fn(&Vec<String>, &Vec<String>) -> bool>(
    left: Option<&z_loaned_keyexpr_t>,
    right: Option<&z_loaned_keyexpr_t>,
    matcher: &M,
    equals: bool,
    intersects: bool,
    includes: bool,
)
    requires
        call_ensures(z_keyexpr_equals, (left, right), equals),
        call_ensures(z_keyexpr_intersects::<M>, (left, right, matcher), intersects),
        call_ensures(z_keyexpr_includes::<M>, (left, right, matcher), includes),
    ensures
        equals == (left is Some && left->0.state is Some && right is Some && right->0.state is Some
            && left->0.state->0.keyexpr@ == right->0.state->0.keyexpr@),
        left is None || left->0.state is None || right is None || right->0.state is None
            ==> !intersects && !includes,
        left is Some && left->0.state is Some && right is Some && right->0.state is Some ==> {
            &&& exists|a: &Vec<String>, b: &Vec<String>|
                #[trigger] call_ensures(*matcher, (a, b), intersects) && joined(texts(a@), '/')
                    == left->0.state->0.keyexpr@ && joined(texts(b@), '/')
                    == right->0.state->0.keyexpr@
            &&& exists|a: &Vec<String>, b: &Vec<String>|
                #[trigger] call_ensures(*matcher, (a, b), includes) && joined(texts(a@), '/')
                    == left->0.state->0.keyexpr@ && joined(texts(b@), '/')
                    == right->0.state->0.keyexpr@
        },
{
}

/// The level of two key expressions is the highest whose relation holds: equal,
/// included, intersecting, or none.
pub proof fn lemma_the_level_is_the_strongest_relation<
    I: Fn(&Vec<String>, &Vec<String>) -> bool,
    M: Fn(&Vec<String>, &Vec<String>) -> bool,
>(
    left: Option<&z_loaned_keyexpr_t>,
    right: Option<&z_loaned_keyexpr_t>,
    includes: &I,
    intersects: &M,
    equals: bool,
    level: i32,
)
    requires
        call_ensures(z_keyexpr_equals, (left, right), equals),
        call_ensures(
            z_keyexpr_relation_to::<I, M>,
            (left, right, includes, intersects),
            level,
        ),
    ensures
        0 <= level <= 3,
        level == 3 <==> equals,
        left is None || left->0.state is None || right is None || right->0.state is None ==> level
            == 0,
        left is Some && left->0.state is Some && right is Some && right->0.state is Some && !equals
            ==> {
            &&& exists|a: &Vec<String>, b: &Vec<String>, i: bool|
                #[trigger] call_ensures(*includes, (a, b), i) && i == (level == 2) && joined(
                    texts(a@),
                    '/',
                ) == left->0.state->0.keyexpr@ && joined(texts(b@), '/')
                    == right->0.state->0.keyexpr@
            &&& level != 2 ==> exists|a: &Vec<String>, b: &Vec<String>, i: bool|
                #[trigger] call_ensures(*intersects, (a, b), i) && i == (level == 1) && joined(
                    texts(a@),
                    '/',
                ) == left->0.state->0.keyexpr@ && joined(texts(b@), '/')
                    == right->0.state->0.keyexpr@
        },
{
}

/// Appending bytes to a key expression and joining two make the canonical form of the
/// one text behind the other, without and with a slash between them.
pub proof fn lemma_a_composed_keyexpr_is_the_canonical_form<K: Fn(&str) -> Option<String>>(
    slot: &mut z_owned_keyexpr_t,
    left: &z_loaned_keyexpr_t,
    bytes: &[u8],
    len: usize,
    canon: &K,
    code: ZResult,
    joint: &mut z_owned_keyexpr_t,
    right: &z_loaned_keyexpr_t,
    joint_code: ZResult,
)
    requires
        len <= bytes@.len(),
        left.state is Some,
        right.state is Some,
        call_ensures(z_keyexpr_concat::<K>, (Some(slot), Some(left), Some(bytes), len, canon), code),
        call_ensures(z_keyexpr_join::<K>, (Some(joint), Some(left), Some(right), canon), joint_code),
    ensures
        final(slot).state is Some == (code == 0),
        !valid_utf8(bytes@.take(len as int)) ==> code == -5,
        valid_utf8(bytes@.take(len as int)) ==> (code == 0 || code == -1) && exists|
            t: &str,
            form: Option<String>,
        |
            {
                &&& #[trigger] call_ensures(*canon, (t,), form)
                &&& t@ == left.state->0.keyexpr@ + decode_utf8(bytes@.take(len as int))
                &&& form is Some == (code == 0)
                &&& code == 0 ==> final(slot).state->0.keyexpr@ == form->0@
                    && final(slot).state->0.mapping is None
            },
        joint_code == 0 || joint_code == -1,
        final(joint).state is Some == (joint_code == 0),
        exists|t: &str, form: Option<String>|
            {
                &&& #[trigger] call_ensures(*canon, (t,), form)
                &&& t@ == left.state->0.keyexpr@ + seq!['/'] + right.state->0.keyexpr@
                &&& form is Some == (joint_code == 0)
                &&& joint_code == 0 ==> final(joint).state->0.keyexpr@ == form->0@
                    && final(joint).state->0.mapping is None
            },
{
}

/// A copy has the text and no alias, and a dropped one is gone.
pub proof fn lemma_a_copied_keyexpr_has_the_text(
    dst: &mut z_owned_keyexpr_t,
    this_: Option<&z_loaned_keyexpr_t>,
    moved: &mut z_moved_keyexpr_t,
)
    requires
        call_ensures(z_keyexpr_clone, (Some(dst), this_), ()),
        call_ensures(z_keyexpr_drop, (Some(moved),), ()),
    ensures
        final(dst).state is Some == (this_ is Some && this_->0.state is Some),
        final(dst).state is Some ==> final(dst).state->0.keyexpr@ == this_->0.state->0.keyexpr@
            && final(dst).state->0.mapping is None,
        final(moved)._this.state is None,
{
}

/// A key expression is declared on its session under its text and gets the alias that
/// the session bound, and retracting it retracts that alias from that session.
pub proof fn lemma_a_declared_keyexpr_has_its_alias<D: FnOnce(u64, &String) -> Option<u64>>(
    session: Option<&z_loaned_session_t>,
    slot: &mut z_owned_keyexpr_t,
    key_expr: Option<&z_loaned_keyexpr_t>,
    declare: D,
    code: ZResult,
    moved: &mut z_moved_keyexpr_t,
    r: (ZResult, Option<KeyexprRetraction>),
)
    requires
        call_ensures(z_declare_keyexpr::<D>, (session, Some(slot), key_expr, declare), code),
        call_ensures(z_undeclare_keyexpr, (session, Some(moved)), r),
    ensures
        final(slot).state is Some == (code == 0),
        session is None || session->0.state is None || key_expr is None || key_expr->0.state is None
            ==> code == -5,
        session is Some && session->0.state is Some && key_expr is Some && key_expr->0.state is Some
            ==> (code == 0 || code == -1) && exists|t: &String, alias: Option<u64>|
            {
                &&& #[trigger] call_ensures(declare, (session->0.state->0.shared, t), alias)
                &&& t@ == key_expr->0.state->0.keyexpr@
                &&& alias is Some == (code == 0)
                &&& code == 0 ==> final(slot).state->0.keyexpr@ == t@
                    && final(slot).state->0.mapping == alias
            },
        final(moved)._this.state is None,
        r.0 == (if session is Some && session->0.state is Some {
            0i8
        } else {
            -5i8
        }),
        r.1 is Some == (session is Some && session->0.state is Some && old(moved)._this.state is Some && old(moved)._this.state->0.mapping is Some),
        r.1 is Some ==> r.1->0.session == session->0.state->0.shared && r.1->0.mapping == old(moved)._this.state->0.mapping->0,
{
}

} // verus!
