//! Key expressions: viewed, owned and declared.
//!
//! One state stands behind all three; they differ in who frees it and in whether
//! a declaration bound a wire alias to it. The grammar is not known here. A
//! `canon` function gives the canonical form of a text, or nothing for a text
//! that is no key expression; matching functions decide over the chunks between
//! slashes.

use vstd::prelude::*;
use vstd::string::*;
use vstd::utf8::decode_utf8;
use vstd::utf8::decode_utf8_encode_utf8;
use vstd::utf8::encode_utf8;
use vstd::utf8::encode_utf8_decode_utf8;
use vstd::utf8::encode_utf8_valid_utf8;
use vstd::utf8::valid_utf8;

use crate::handle::gravestone;
use crate::handle::is_live;
use crate::handle::live;
use crate::handle::state_of;
use crate::handle::take;
use crate::handle::Moved;
use crate::handle::Owned;
use crate::result::ZResult;
use crate::result::Z_EINVAL;
use crate::result::Z_ENULL;
use crate::result::Z_EPARSE;
use crate::result::Z_OK;
use crate::session::z_loaned_session_t;
use crate::string::same_text;
use crate::text::is_split;
use crate::text::lemma_split_is_unique;
use crate::text::split;
use crate::text::texts;
use crate::text::utf8_text;

verus! {

/// The state behind a key expression handle.
pub struct KeyexprState {
    pub keyexpr: String,
    /// The wire alias a declaration bound to the key expression.
    pub mapping: Option<u64>,
}

/// An owned key expression.
pub type z_owned_keyexpr_t = Owned<KeyexprState>;

/// A view of a key expression.
pub type z_view_keyexpr_t = Owned<KeyexprState>;

/// A borrowed key expression: the same slot.
pub type z_loaned_keyexpr_t = Owned<KeyexprState>;

/// A key expression on its way to be consumed.
pub type z_moved_keyexpr_t = Moved<KeyexprState>;

impl KeyexprState {
    /// An undeclared key expression: a text with no wire alias behind it.
    pub fn new(keyexpr: String) -> (state: KeyexprState)
        ensures
            state == (KeyexprState { keyexpr, mapping: None }),
    {
        KeyexprState { keyexpr, mapping: None }
    }
}

/// The key expression a declaration was made under. Its owner binds it once it
/// has come to rest; until then there is nothing to borrow.
pub struct DeclaredKeyexpr {
    pub state: z_loaned_keyexpr_t,
    pub bound: bool,
}

impl DeclaredKeyexpr {
    /// It holds a key expression.
    pub open spec fn wf(&self) -> bool {
        self.state.state is Some
    }

    /// The text of the declaration.
    pub open spec fn text(&self) -> Seq<char> {
        self.state.state->0.keyexpr@
    }

    /// Builds it unbound.
    pub fn new(keyexpr: String) -> (declared: DeclaredKeyexpr)
        ensures
            declared.wf(),
            declared.state.state == Some(KeyexprState { keyexpr, mapping: None }),
            !declared.bound,
    {
        DeclaredKeyexpr { state: Owned::from_state(KeyexprState::new(keyexpr)), bound: false }
    }

    /// Binds it: it can be borrowed from now on.
    pub fn bind(&mut self)
        ensures
            *final(self) == (DeclaredKeyexpr { bound: true, ..*old(self) }),
    {
        self.bound = true;
    }

    /// The text of the declaration.
    pub fn literal(&self) -> (text: &str)
        requires
            self.wf(),
        ensures
            text@ == self.text(),
    {
        match &self.state.state {
            Some(state) => state.keyexpr.as_str(),
            None => "",
        }
    }

    /// The borrowed key expression, once bound.
    pub fn as_loaned(&self) -> (loaned: Option<&z_loaned_keyexpr_t>)
        ensures
            match loaned {
                Some(loaned) => self.bound && *loaned == self.state,
                None => !self.bound,
            },
    {
        if self.bound {
            Some(&self.state)
        } else {
            None
        }
    }
}

/// The text behind a nullable key expression.
pub open spec fn text_of(ke: Option<&z_loaned_keyexpr_t>) -> Option<Seq<char>> {
    match live(ke) {
        Some(state) => Some(state.keyexpr@),
        None => None,
    }
}

/// The text behind a nullable key expression.
pub fn keyexpr_str(ke: Option<&z_loaned_keyexpr_t>) -> (text: Option<&str>)
    ensures
        match text {
            Some(text) => text_of(ke) == Some(text@),
            None => text_of(ke) is None,
        },
{
    match state_of(ke) {
        Some(state) => Some(state.keyexpr.as_str()),
        None => None,
    }
}

/// The wire alias behind a nullable key expression.
pub fn keyexpr_mapping(ke: Option<&z_loaned_keyexpr_t>) -> (mapping: Option<u64>)
    ensures
        mapping == (match live(ke) {
            Some(state) => state.mapping,
            None => None,
        }),
{
    match state_of(ke) {
        Some(state) => state.mapping,
        None => None,
    }
}

/// Whether a slot holds an undeclared key expression with this text, or none.
pub open spec fn holds_text(slot: Owned<KeyexprState>, text: Option<Seq<char>>) -> bool {
    match text {
        Some(text) => slot.state matches Some(state) && state.keyexpr@ == text
            && state.mapping is None,
        None => slot.state is None,
    }
}

/// The characters of an optional text.
pub open spec fn characters(text: Option<String>) -> Option<Seq<char>> {
    match text {
        Some(text) => Some(text@),
        None => None,
    }
}

/// Whether `canon`, asked for the canonical form of `text`, may answer `answer`.
pub open spec fn canon_says<K: Fn(&str) -> Option<String>>(
    canon: K,
    text: Seq<char>,
    answer: Option<Seq<char>>,
) -> bool {
    exists|t: &str, out: Option<String>|
        t@ == text && characters(out) == answer && #[trigger] call_ensures(canon, (t,), out)
}

/// Canonizes a text. Every failure has the same code.
pub fn canonize<K: Fn(&str) -> Option<String>>(text: &str, canon: &K) -> (r: Result<
    String,
    ZResult,
>)
    requires
        forall|t: &str| call_requires(canon, (t,)),
    ensures
        match r {
            Ok(form) => canon_says(*canon, text@, Some(form@)),
            Err(code) => code == Z_EINVAL && canon_says(*canon, text@, None),
        },
{
    let out = canon(text);
    assert(characters(out) == characters(out));
    match out {
        Some(form) => Ok(form),
        None => Err(Z_EINVAL),
    }
}

/// The verdict on a text, given its canonical form: it has to be a key expression
/// that canonizing does not change.
pub open spec fn canonical_code(text: Seq<char>, form: Option<Seq<char>>) -> ZResult {
    if text.len() > 0 && form == Some(text) {
        Z_OK
    } else {
        Z_EINVAL
    }
}

/// Whether `code` is the verdict on `text`. The empty text is refused without
/// asking for its canonical form.
pub open spec fn judged<K: Fn(&str) -> Option<String>>(
    canon: K,
    text: Seq<char>,
    code: ZResult,
) -> bool {
    if text.len() == 0 {
        code == Z_EINVAL
    } else {
        exists|form: Option<Seq<char>>| #[trigger]
            canon_says(canon, text, form) && code == canonical_code(text, form)
    }
}

/// Succeeds on a non-empty, canonical key expression.
pub fn require_canonical<K: Fn(&str) -> Option<String>>(text: &str, canon: &K) -> (r: Result<
    (),
    ZResult,
>)
    requires
        forall|t: &str| call_requires(canon, (t,)),
    ensures
        r matches Err(code) ==> code == Z_EINVAL,
        judged(
            *canon,
            text@,
            (if r is Ok {
                Z_OK
            } else {
                Z_EINVAL
            }),
        ),
{
    if text.unicode_len() == 0 {
        return Err(Z_EINVAL);
    }
    match canonize(text, canon) {
        Ok(form) => {
            assert(canon_says(*canon, text@, Some(form@)));
            if same_text(form.as_str(), text) {
                Ok(())
            } else {
                Err(Z_EINVAL)
            }
        },
        Err(code) => {
            assert(canon_says(*canon, text@, None));
            Err(code)
        },
    }
}

/// What a checked constructor makes of a run of bytes: the text in it, where it
/// is readable and canonical.
pub open spec fn checked<K: Fn(&str) -> Option<String>>(
    canon: K,
    bytes: Seq<u8>,
    code: ZResult,
    slot: Owned<KeyexprState>,
) -> bool {
    if valid_utf8(bytes) {
        &&& judged(canon, decode_utf8(bytes), code)
        &&& holds_text(
            slot,
            if code == Z_OK {
                Some(decode_utf8(bytes))
            } else {
                None
            },
        )
    } else {
        code == Z_EINVAL && slot.state is None
    }
}

fn build_checked<K: Fn(&str) -> Option<String>>(
    slot: &mut Owned<KeyexprState>,
    bytes: &[u8],
    canon: &K,
) -> (code: ZResult)
    requires
        forall|t: &str| call_requires(canon, (t,)),
    ensures
        checked(*canon, bytes@, code, *final(slot)),
{
    slot.state = None;
    match utf8_text(bytes) {
        None => Z_EINVAL,
        Some(text) => match require_canonical(text, canon) {
            Ok(()) => {
                slot.state = Some(KeyexprState::new(text.to_owned()));
                Z_OK
            },
            Err(code) => code,
        },
    }
}

/// What a canonizing constructor makes of a run of bytes: the canonical form of
/// the text in it, where it has one.
pub open spec fn canonized<K: Fn(&str) -> Option<String>>(
    canon: K,
    text: Seq<char>,
    code: ZResult,
    slot: Owned<KeyexprState>,
) -> bool {
    exists|form: Option<Seq<char>>| #[trigger]
        canon_says(canon, text, form) && holds_text(slot, form) && code == (if form is Some {
            Z_OK
        } else {
            Z_EINVAL
        })
}

fn build_canonized<K: Fn(&str) -> Option<String>>(
    slot: &mut Owned<KeyexprState>,
    text: &str,
    canon: &K,
) -> (code: ZResult)
    requires
        forall|t: &str| call_requires(canon, (t,)),
    ensures
        canonized(*canon, text@, code, *final(slot)),
{
    slot.state = None;
    match canonize(text, canon) {
        Ok(form) => {
            let ghost answer = Some(form@);
            slot.state = Some(KeyexprState::new(form));
            proof {
                lemma_canonized(*canon, text@, Z_OK, *slot, answer);
            }
            Z_OK
        },
        Err(code) => {
            proof {
                lemma_canonized(*canon, text@, Z_EINVAL, *slot, None);
            }
            code
        },
    }
}

proof fn lemma_canonized<K: Fn(&str) -> Option<String>>(
    canon: K,
    text: Seq<char>,
    code: ZResult,
    slot: Owned<KeyexprState>,
    form: Option<Seq<char>>,
)
    requires
        canon_says(canon, text, form),
        holds_text(slot, form),
        code == (if form is Some {
            Z_OK
        } else {
            Z_EINVAL
        }),
    ensures
        canonized(canon, text, code, slot),
{
}

/// Constructs a view from a C string, given its bytes before the terminator. A
/// text that is not canonical is refused.
pub fn z_view_keyexpr_from_str<K: Fn(&str) -> Option<String>>(
    this_: Option<&mut z_view_keyexpr_t>,
    expr: Option<&[u8]>,
    canon: &K,
) -> (code: ZResult)
    requires
        forall|t: &str| call_requires(canon, (t,)),
    ensures
        match (this_, expr) {
            (Some(slot), Some(bytes)) => checked(*canon, bytes@, code, *final(slot)),
            (Some(slot), None) => code == Z_ENULL && *final(slot) == *slot,
            (None, _) => code == Z_ENULL,
        },
{
    match (this_, expr) {
        (Some(slot), Some(bytes)) => build_checked(slot, bytes, canon),
        _ => Z_ENULL,
    }
}

/// Borrows a view.
pub fn z_view_keyexpr_loan(this_: Option<&z_view_keyexpr_t>) -> (loaned: Option<
    &z_loaned_keyexpr_t,
>)
    ensures
        loaned == this_,
{
    this_
}

/// The text in a readable run of bytes.
pub open spec fn readable(bytes: Seq<u8>) -> Option<Seq<char>> {
    if valid_utf8(bytes) {
        Some(decode_utf8(bytes))
    } else {
        None
    }
}

/// Constructs a view from a C string whose canonicity the caller vouches for. A
/// null or unreadable one leaves the gravestone.
pub fn z_view_keyexpr_from_str_unchecked(this_: Option<&mut z_view_keyexpr_t>, s: Option<&[u8]>)
    ensures
        this_ matches Some(slot) ==> holds_text(
            *final(slot),
            match s {
                Some(bytes) => readable(bytes@),
                None => None,
            },
        ),
{
    if let Some(slot) = this_ {
        slot.state = None;
        if let Some(bytes) = s {
            if let Some(text) = utf8_text(bytes) {
                slot.state = Some(KeyexprState::new(text.to_owned()));
            }
        }
    }
}

fn first<'a>(bytes: &'a [u8], len: usize) -> (run: &'a [u8])
    requires
        len <= bytes@.len(),
    ensures
        run@ == bytes@.take(len as int),
{
    let run = vstd::slice::slice_subrange(bytes, 0, len);
    assert(run@ =~= bytes@.take(len as int));
    run
}

/// Constructs a view from the first `len` bytes at `expr`.
pub fn z_view_keyexpr_from_substr<K: Fn(&str) -> Option<String>>(
    this_: Option<&mut z_view_keyexpr_t>,
    expr: Option<&[u8]>,
    len: usize,
    canon: &K,
) -> (code: ZResult)
    requires
        forall|t: &str| call_requires(canon, (t,)),
        expr matches Some(bytes) ==> len <= bytes@.len(),
    ensures
        match (this_, expr) {
            (Some(slot), Some(bytes)) => checked(
                *canon,
                bytes@.take(len as int),
                code,
                *final(slot),
            ),
            (Some(slot), None) => code == Z_ENULL && *final(slot) == *slot,
            (None, _) => code == Z_ENULL,
        },
{
    match (this_, expr) {
        (Some(slot), Some(bytes)) => build_checked(slot, first(bytes, len), canon),
        _ => Z_ENULL,
    }
}

/// Constructs a view from the first `len` bytes at `start`, whose canonicity the
/// caller vouches for.
pub fn z_view_keyexpr_from_substr_unchecked(
    this_: Option<&mut z_view_keyexpr_t>,
    start: Option<&[u8]>,
    len: usize,
)
    requires
        start matches Some(bytes) ==> len <= bytes@.len(),
    ensures
        this_ matches Some(slot) ==> holds_text(
            *final(slot),
            match start {
                Some(bytes) => readable(bytes@.take(len as int)),
                None => None,
            },
        ),
{
    match start {
        Some(bytes) => z_view_keyexpr_from_str_unchecked(this_, Some(first(bytes, len))),
        None => z_view_keyexpr_from_str_unchecked(this_, None),
    }
}

/// Constructs an owned key expression from a C string. A text that is not
/// canonical is refused.
pub fn z_keyexpr_from_str<K: Fn(&str) -> Option<String>>(
    this_: Option<&mut z_owned_keyexpr_t>,
    expr: Option<&[u8]>,
    canon: &K,
) -> (code: ZResult)
    requires
        forall|t: &str| call_requires(canon, (t,)),
    ensures
        match (this_, expr) {
            (Some(slot), Some(bytes)) => checked(*canon, bytes@, code, *final(slot)),
            (Some(slot), None) => code == Z_ENULL && final(slot).state is None,
            (None, _) => code == Z_ENULL,
        },
{
    match this_ {
        None => Z_ENULL,
        Some(slot) => {
            slot.state = None;
            match expr {
                None => Z_ENULL,
                Some(bytes) => build_checked(slot, bytes, canon),
            }
        },
    }
}

/// Constructs an owned key expression from the first `len` bytes at `expr`.
pub fn z_keyexpr_from_substr<K: Fn(&str) -> Option<String>>(
    this_: Option<&mut z_owned_keyexpr_t>,
    expr: Option<&[u8]>,
    len: usize,
    canon: &K,
) -> (code: ZResult)
    requires
        forall|t: &str| call_requires(canon, (t,)),
        expr matches Some(bytes) ==> len <= bytes@.len(),
    ensures
        match (this_, expr) {
            (Some(slot), Some(bytes)) => checked(
                *canon,
                bytes@.take(len as int),
                code,
                *final(slot),
            ),
            (Some(slot), None) => code == Z_ENULL && final(slot).state is None,
            (None, _) => code == Z_ENULL,
        },
{
    match this_ {
        None => Z_ENULL,
        Some(slot) => {
            slot.state = None;
            match expr {
                None => Z_ENULL,
                Some(bytes) => build_checked(slot, first(bytes, len), canon),
            }
        },
    }
}

/// What canonizing the first `n` bytes of a buffer in place does, given the
/// canonical form of the text in them. A form longer than the text has no room
/// and is refused.
pub open spec fn rewritten(
    before: Seq<u8>,
    n: usize,
    form: Option<Seq<char>>,
    after: Seq<u8>,
    n_after: usize,
    code: ZResult,
) -> bool {
    match form {
        Some(form) if encode_utf8(form).len() <= n => {
            let bytes = encode_utf8(form);
            &&& code == Z_OK
            &&& n_after == bytes.len()
            &&& after == bytes + before.skip(bytes.len() as int)
        },
        _ => {
            &&& code == Z_EINVAL
            &&& n_after == n
            &&& after == before
        },
    }
}

/// What canonizing the first `n` bytes of a buffer in place does.
pub open spec fn canonized_in_place<K: Fn(&str) -> Option<String>>(
    canon: K,
    before: Seq<u8>,
    n: usize,
    after: Seq<u8>,
    n_after: usize,
    code: ZResult,
) -> bool {
    let bytes = before.take(n as int);
    if valid_utf8(bytes) {
        exists|form: Option<Seq<char>>| #[trigger]
            canon_says(canon, decode_utf8(bytes), form) && rewritten(
                before,
                n,
                form,
                after,
                n_after,
                code,
            )
    } else {
        code == Z_EPARSE && after == before && n_after == n
    }
}

proof fn lemma_canonized_in_place<K: Fn(&str) -> Option<String>>(
    canon: K,
    before: Seq<u8>,
    n: usize,
    after: Seq<u8>,
    n_after: usize,
    code: ZResult,
    form: Option<Seq<char>>,
)
    requires
        valid_utf8(before.take(n as int)),
        canon_says(canon, decode_utf8(before.take(n as int)), form),
        rewritten(before, n, form, after, n_after, code),
    ensures
        canonized_in_place(canon, before, n, after, n_after, code),
{
}

fn overwrite(buffer: &mut Vec<u8>, bytes: &[u8])
    requires
        bytes@.len() <= old(buffer)@.len(),
    ensures
        final(buffer)@ == bytes@ + old(buffer)@.skip(bytes@.len() as int),
{
    let mut i: usize = 0;
    while i < bytes.len()
        invariant
            i <= bytes@.len() <= old(buffer)@.len(),
            buffer@ == bytes@.take(i as int) + old(buffer)@.skip(i as int),
        decreases bytes@.len() - i,
    {
        buffer.set(i, bytes[i]);
        i = i + 1;
        assert(buffer@ =~= bytes@.take(i as int) + old(buffer)@.skip(i as int));
    }
    assert(bytes@.take(i as int) =~= bytes@);
}

fn place(buffer: &mut Vec<u8>, len: &mut usize, form: &str) -> (code: ZResult)
    requires
        *old(len) <= old(buffer)@.len(),
    ensures
        rewritten(old(buffer)@, *old(len), Some(form@), final(buffer)@, *final(len), code),
{
    let bytes = form.as_bytes();
    assert(bytes@ == encode_utf8(form@));
    if bytes.len() > *len {
        return Z_EINVAL;
    }
    overwrite(buffer, bytes);
    *len = bytes.len();
    Z_OK
}

fn rewrite<K: Fn(&str) -> Option<String>>(buffer: &mut Vec<u8>, len: &mut usize, canon: &K) -> (code:
    ZResult)
    requires
        forall|t: &str| call_requires(canon, (t,)),
        *old(len) <= old(buffer)@.len(),
    ensures
        canonized_in_place(
            *canon,
            old(buffer)@,
            *old(len),
            final(buffer)@,
            *final(len),
            code,
        ),
{
    let ghost before = buffer@;
    let n: usize = *len;
    let answer = match utf8_text(first(buffer.as_slice(), n)) {
        None => {
            return Z_EPARSE;
        },
        Some(text) => canonize(text, canon),
    };
    match answer {
        Ok(form) => {
            let code = place(buffer, len, form.as_str());
            proof {
                lemma_canonized_in_place(*canon, before, n, buffer@, *len, code, Some(form@));
            }
            code
        },
        Err(code) => {
            proof {
                lemma_canonized_in_place(*canon, before, n, buffer@, *len, Z_EINVAL, None);
            }
            code
        },
    }
}

/// Canonizes the first `len` bytes at `start` in place, and `len` with them.
pub fn z_keyexpr_canonize<K: Fn(&str) -> Option<String>>(
    start: Option<&mut Vec<u8>>,
    len: Option<&mut usize>,
    canon: &K,
) -> (code: ZResult)
    requires
        forall|t: &str| call_requires(canon, (t,)),
        (start, len) matches (Some(buffer), Some(n)) ==> *n <= buffer@.len(),
    ensures
        match (start, len) {
            (Some(buffer), Some(n)) => canonized_in_place(
                *canon,
                buffer@,
                *n,
                final(buffer)@,
                *final(n),
                code,
            ),
            (Some(buffer), None) => code == Z_ENULL && *final(buffer) == *buffer,
            (None, Some(n)) => code == Z_ENULL && *final(n) == *n,
            (None, None) => code == Z_ENULL,
        },
{
    match (start, len) {
        (Some(buffer), Some(len)) => rewrite(buffer, len, canon),
        _ => Z_ENULL,
    }
}

/// Whether `n` is where a buffer's C string ends.
pub open spec fn ends_at(buffer: Seq<u8>, n: int) -> bool {
    &&& 0 <= n < buffer.len()
    &&& buffer[n] == 0
    &&& forall|i: int| 0 <= i < n ==> #[trigger] buffer[i] != 0
}

fn c_string_len(buffer: &Vec<u8>) -> (n: usize)
    requires
        buffer@.contains(0),
    ensures
        ends_at(buffer@, n as int),
{
    let mut n: usize = 0;
    while n < buffer.len() && buffer[n] != 0
        invariant
            n <= buffer@.len(),
            forall|i: int| 0 <= i < n ==> #[trigger] buffer@[i] != 0,
        decreases buffer@.len() - n,
    {
        n = n + 1;
    }
    proof {
        let z = choose|z: int| 0 <= z < buffer@.len() && buffer@[z] == 0;
        assert(n <= z);
    }
    n
}

/// What canonizing a C string of `n` bytes in place does: the string is ended
/// where its canonical form ends.
pub open spec fn canonized_c_string<K: Fn(&str) -> Option<String>>(
    canon: K,
    before: Seq<u8>,
    n: usize,
    after: Seq<u8>,
    code: ZResult,
) -> bool {
    exists|rewritten: Seq<u8>, n_after: usize| #[trigger]
        canonized_in_place(canon, before, n, rewritten, n_after, code) && after == (if code
            == Z_OK {
            rewritten.update(n_after as int, 0)
        } else {
            before
        })
}

fn rewrite_c_string<K: Fn(&str) -> Option<String>>(buffer: &mut Vec<u8>, canon: &K) -> (r: (
    ZResult,
    usize,
))
    requires
        forall|t: &str| call_requires(canon, (t,)),
        old(buffer)@.contains(0),
    ensures
        exists|n: usize| #[trigger]
            ends_at(old(buffer)@, n as int) && canonized_c_string(
                *canon,
                old(buffer)@,
                n,
                final(buffer)@,
                r.0,
            ),
        r.0 == Z_OK ==> r.1 < final(buffer)@.len() && final(buffer)@[r.1 as int] == 0,
{
    let ghost before = buffer@;
    let n: usize = c_string_len(buffer);
    let mut len: usize = n;
    let code = rewrite(buffer, &mut len, canon);
    let ghost middle = buffer@;
    if code == Z_OK {
        buffer.set(len, 0);
    }
    proof {
        assert(ends_at(before, n as int));
        lemma_canonized_c_string(*canon, before, n, middle, len, buffer@, code);
    }
    (code, len)
}

proof fn lemma_canonized_c_string<K: Fn(&str) -> Option<String>>(
    canon: K,
    before: Seq<u8>,
    n: usize,
    middle: Seq<u8>,
    n_after: usize,
    after: Seq<u8>,
    code: ZResult,
)
    requires
        canonized_in_place(canon, before, n, middle, n_after, code),
        after == (if code == Z_OK {
            middle.update(n_after as int, 0)
        } else {
            middle
        }),
    ensures
        canonized_c_string(canon, before, n, after, code),
{
}

/// Canonizes a C string in place and ends it where its canonical form ends.
pub fn z_keyexpr_canonize_null_terminated<K: Fn(&str) -> Option<String>>(
    start: Option<&mut Vec<u8>>,
    canon: &K,
) -> (code: ZResult)
    requires
        forall|t: &str| call_requires(canon, (t,)),
        start matches Some(buffer) ==> buffer@.contains(0),
    ensures
        match start {
            Some(buffer) => exists|n: usize| #[trigger]
                ends_at(buffer@, n as int) && canonized_c_string(
                    *canon,
                    buffer@,
                    n,
                    final(buffer)@,
                    code,
                ),
            None => code == Z_ENULL,
        },
{
    match start {
        Some(buffer) => rewrite_c_string(buffer, canon).0,
        None => Z_ENULL,
    }
}

/// What constructing an owned key expression from the first `n` bytes of a
/// buffer, canonized in place, does: the buffer is rewritten and the slot holds
/// the canonical form. Where there is none, or no room for it, the buffer and its
/// length stay as they were and the slot is a gravestone.
pub open spec fn stored_run<K: Fn(&str) -> Option<String>>(
    canon: K,
    before: Seq<u8>,
    n: usize,
    after: Seq<u8>,
    n_after: usize,
    code: ZResult,
    slot: z_owned_keyexpr_t,
) -> bool {
    let run = before.take(n as int);
    if valid_utf8(run) {
        exists|form: Option<Seq<char>>| #[trigger]
            canon_says(canon, decode_utf8(run), form) && rewritten(
                before,
                n,
                form,
                after,
                n_after,
                code,
            ) && holds_text(
                slot,
                if code == Z_OK {
                    form
                } else {
                    None
                },
            )
    } else {
        code == Z_EINVAL && after == before && n_after == n && slot.state is None
    }
}

proof fn lemma_stored_run<K: Fn(&str) -> Option<String>>(
    canon: K,
    before: Seq<u8>,
    n: usize,
    after: Seq<u8>,
    n_after: usize,
    code: ZResult,
    slot: z_owned_keyexpr_t,
    form: Option<Seq<char>>,
)
    requires
        valid_utf8(before.take(n as int)),
        canon_says(canon, decode_utf8(before.take(n as int)), form),
        rewritten(before, n, form, after, n_after, code),
        holds_text(
            slot,
            if code == Z_OK {
                form
            } else {
                None
            },
        ),
    ensures
        stored_run(canon, before, n, after, n_after, code, slot),
{
}

fn store_run<K: Fn(&str) -> Option<String>>(
    slot: &mut z_owned_keyexpr_t,
    buffer: &mut Vec<u8>,
    len: &mut usize,
    canon: &K,
) -> (code: ZResult)
    requires
        forall|t: &str| call_requires(canon, (t,)),
        *old(len) <= old(buffer)@.len(),
    ensures
        stored_run(
            *canon,
            old(buffer)@,
            *old(len),
            final(buffer)@,
            *final(len),
            code,
            *final(slot),
        ),
{
    let ghost before = buffer@;
    let n: usize = *len;
    slot.state = None;
    let answer = match utf8_text(first(buffer.as_slice(), n)) {
        None => {
            return Z_EINVAL;
        },
        Some(text) => canonize(text, canon),
    };
    match answer {
        Ok(form) => {
            let ghost held = Some(form@);
            let code = place(buffer, len, form.as_str());
            if code == Z_OK {
                slot.state = Some(KeyexprState::new(form));
            }
            proof {
                lemma_stored_run(*canon, before, n, buffer@, *len, code, *slot, held);
            }
            code
        },
        Err(code) => {
            proof {
                lemma_stored_run(*canon, before, n, buffer@, *len, Z_EINVAL, *slot, None);
            }
            code
        },
    }
}

/// What constructing an owned key expression from a C string of `n` bytes,
/// canonized in place, does: the string is ended where its canonical form ends.
pub open spec fn stored_c_string<K: Fn(&str) -> Option<String>>(
    canon: K,
    before: Seq<u8>,
    n: usize,
    after: Seq<u8>,
    code: ZResult,
    slot: z_owned_keyexpr_t,
) -> bool {
    exists|rewritten: Seq<u8>, n_after: usize| #[trigger]
        stored_run(canon, before, n, rewritten, n_after, code, slot) && after == (if code == Z_OK {
            rewritten.update(n_after as int, 0)
        } else {
            before
        })
}

proof fn lemma_stored_c_string<K: Fn(&str) -> Option<String>>(
    canon: K,
    before: Seq<u8>,
    n: usize,
    middle: Seq<u8>,
    n_after: usize,
    after: Seq<u8>,
    code: ZResult,
    slot: z_owned_keyexpr_t,
)
    requires
        stored_run(canon, before, n, middle, n_after, code, slot),
        after == (if code == Z_OK {
            middle.update(n_after as int, 0)
        } else {
            middle
        }),
    ensures
        stored_c_string(canon, before, n, after, code, slot),
{
}

/// Constructs an owned key expression with the canonical form of a C string. The
/// caller's buffer is rewritten with it and ended where it ends.
pub fn z_keyexpr_from_str_autocanonize<K: Fn(&str) -> Option<String>>(
    this_: Option<&mut z_owned_keyexpr_t>,
    expr: Option<&mut Vec<u8>>,
    canon: &K,
) -> (code: ZResult)
    requires
        forall|t: &str| call_requires(canon, (t,)),
        expr matches Some(buffer) ==> buffer@.contains(0),
    ensures
        match (this_, expr) {
            (Some(slot), Some(buffer)) => exists|n: usize| #[trigger]
                ends_at(buffer@, n as int) && stored_c_string(
                    *canon,
                    buffer@,
                    n,
                    final(buffer)@,
                    code,
                    *final(slot),
                ),
            (Some(slot), None) => code == Z_ENULL && final(slot).state is None,
            (None, Some(buffer)) => code == Z_ENULL && *final(buffer) == *buffer,
            (None, None) => code == Z_ENULL,
        },
{
    let slot = match this_ {
        Some(slot) => slot,
        None => {
            return Z_ENULL;
        },
    };
    slot.state = None;
    match expr {
        None => Z_ENULL,
        Some(buffer) => {
            let ghost before = buffer@;
            let n: usize = c_string_len(buffer);
            let mut len: usize = n;
            let code = store_run(slot, buffer, &mut len, canon);
            let ghost middle = buffer@;
            if code == Z_OK {
                buffer.set(len, 0);
            }
            proof {
                assert(ends_at(before, n as int));
                lemma_stored_c_string(*canon, before, n, middle, len, buffer@, code, *slot);
            }
            code
        },
    }
}

/// Constructs an owned key expression with the canonical form of the first `len`
/// bytes at `start`. The caller's bytes and their length are rewritten with it.
pub fn z_keyexpr_from_substr_autocanonize<K: Fn(&str) -> Option<String>>(
    this_: Option<&mut z_owned_keyexpr_t>,
    start: Option<&mut Vec<u8>>,
    len: Option<&mut usize>,
    canon: &K,
) -> (code: ZResult)
    requires
        forall|t: &str| call_requires(canon, (t,)),
        (start, len) matches (Some(buffer), Some(n)) ==> *n <= buffer@.len(),
    ensures
        match (this_, start, len) {
            (Some(slot), Some(buffer), Some(n)) => stored_run(
                *canon,
                buffer@,
                *n,
                final(buffer)@,
                *final(n),
                code,
                *final(slot),
            ),
            (Some(slot), _, _) => code == Z_ENULL && final(slot).state is None,
            (None, _, _) => code == Z_ENULL,
        },
        !(this_ is Some && start is Some && len is Some) ==> {
            &&& start matches Some(buffer) ==> *final(buffer) == *buffer
            &&& len matches Some(n) ==> *final(n) == *n
        },
{
    let slot = match this_ {
        Some(slot) => slot,
        None => {
            return Z_ENULL;
        },
    };
    slot.state = None;
    match (start, len) {
        (Some(buffer), Some(len)) => store_run(slot, buffer, len, canon),
        _ => Z_ENULL,
    }
}

/// A key expression that is constructed with a canonical form holds what the
/// caller's buffer is left with, and the buffer is left as canonizing it in place
/// leaves it.
pub proof fn lemma_autocanonizing_stores_what_it_leaves<K: Fn(&str) -> Option<String>>(
    canon: K,
    before: Seq<u8>,
    n: usize,
    after: Seq<u8>,
    n_after: usize,
    code: ZResult,
    slot: z_owned_keyexpr_t,
)
    requires
        n <= before.len(),
        stored_run(canon, before, n, after, n_after, code, slot),
    ensures
        code == Z_OK ==> {
            &&& canonized_in_place(canon, before, n, after, n_after, Z_OK)
            &&& valid_utf8(after.take(n_after as int))
            &&& holds_text(slot, Some(decode_utf8(after.take(n_after as int))))
        },
        code != Z_OK ==> code == Z_EINVAL && after == before && n_after == n && slot.state is None,
{
    if code == Z_OK {
        let text = decode_utf8(before.take(n as int));
        let form = choose|form: Option<Seq<char>>| #[trigger]
            canon_says(canon, text, form) && rewritten(before, n, form, after, n_after, code)
                && holds_text(slot, form);
        lemma_canonized_in_place(canon, before, n, after, n_after, Z_OK, form);
        assert(after.take(n_after as int) =~= encode_utf8(form->0));
        encode_utf8_valid_utf8(form->0);
        encode_utf8_decode_utf8(form->0);
    }
}

/// Whether `code` tells whether a run of bytes is its own canonical form.
pub open spec fn judged_canonical<K: Fn(&str) -> Option<String>>(
    canon: K,
    run: Seq<u8>,
    code: ZResult,
) -> bool {
    if valid_utf8(run) {
        exists|form: Option<Seq<char>>| #[trigger]
            canon_says(canon, decode_utf8(run), form) && code == (if form == Some(
                decode_utf8(run),
            ) {
                Z_OK
            } else {
                Z_EINVAL
            })
    } else {
        code == Z_EPARSE
    }
}

/// Whether the canonical form of a text is its own: asked for it, `canon` gives it
/// back.
pub open spec fn gives_fixed_forms<K: Fn(&str) -> Option<String>>(canon: K) -> bool {
    forall|text: Seq<char>, form: Seq<char>, again: Option<Seq<char>>|
        #![trigger canon_says(canon, text, Some(form)), canon_says(canon, form, again)]
        canon_says(canon, text, Some(form)) && canon_says(canon, form, again) ==> again == Some(
            form,
        )
}

/// Canonizing in place leaves the canonical form of the text that was there, in no
/// more room, and every byte behind it as it was. Where it fails, nothing changes.
pub proof fn lemma_canonizing_leaves_the_canonical_form<K: Fn(&str) -> Option<String>>(
    canon: K,
    before: Seq<u8>,
    n: usize,
    after: Seq<u8>,
    n_after: usize,
    code: ZResult,
)
    requires
        n <= before.len(),
        canonized_in_place(canon, before, n, after, n_after, code),
    ensures
        after.len() == before.len(),
        n_after <= n,
        after.skip(n as int) == before.skip(n as int),
        code == Z_OK ==> valid_utf8(before.take(n as int)) && valid_utf8(after.take(n_after as int))
            && canon_says(
            canon,
            decode_utf8(before.take(n as int)),
            Some(decode_utf8(after.take(n_after as int))),
        ),
        code != Z_OK ==> after == before && n_after == n,
{
    if code == Z_OK {
        let text = decode_utf8(before.take(n as int));
        let form = choose|form: Option<Seq<char>>| #[trigger]
            canon_says(canon, text, form) && rewritten(before, n, form, after, n_after, code);
        let bytes = encode_utf8(form->0);
        assert(after.take(n_after as int) =~= bytes);
        assert(after.skip(n as int) =~= before.skip(n as int));
        encode_utf8_valid_utf8(form->0);
        encode_utf8_decode_utf8(form->0);
    }
}

/// Canonizing is idempotent, where a canonical form is its own: what it leaves is
/// judged canonical, and canonizing it again succeeds and changes nothing.
pub proof fn lemma_canonizing_is_idempotent<K: Fn(&str) -> Option<String>>(
    canon: K,
    before: Seq<u8>,
    n: usize,
    after: Seq<u8>,
    n_after: usize,
    verdict: ZResult,
    again: Seq<u8>,
    n_again: usize,
    code: ZResult,
)
    requires
        gives_fixed_forms(canon),
        n <= before.len(),
        canonized_in_place(canon, before, n, after, n_after, Z_OK),
        judged_canonical(canon, after.take(n_after as int), verdict),
        canonized_in_place(canon, after, n_after, again, n_again, code),
    ensures
        verdict == Z_OK,
        code == Z_OK,
        again == after,
        n_again == n_after,
{
    lemma_canonizing_leaves_the_canonical_form(canon, before, n, after, n_after, Z_OK);
    let text = decode_utf8(before.take(n as int));
    let left = after.take(n_after as int);
    let form = decode_utf8(left);
    decode_utf8_encode_utf8(left);
    let second = choose|second: Option<Seq<char>>| #[trigger]
        canon_says(canon, form, second) && rewritten(after, n_after, second, again, n_again, code);
    assert(second == Some(form));
    assert(again =~= after);
}

/// Succeeds where the first `len` bytes at `start` are their own canonical form.
pub fn z_keyexpr_is_canon<K: Fn(&str) -> Option<String>>(
    start: Option<&[u8]>,
    len: usize,
    canon: &K,
) -> (code: ZResult)
    requires
        forall|t: &str| call_requires(canon, (t,)),
        start matches Some(bytes) ==> len <= bytes@.len(),
    ensures
        match start {
            None => code == Z_ENULL,
            Some(bytes) => judged_canonical(*canon, bytes@.take(len as int), code),
        },
{
    match start {
        None => Z_ENULL,
        Some(bytes) => match utf8_text(first(bytes, len)) {
            None => Z_EPARSE,
            Some(text) => match canonize(text, canon) {
                Ok(form) => {
                    assert(canon_says(*canon, text@, Some(form@)));
                    if same_text(form.as_str(), text) {
                        Z_OK
                    } else {
                        Z_EINVAL
                    }
                },
                Err(code) => {
                    assert(canon_says(*canon, text@, None));
                    code
                },
            },
        },
    }
}

/// What constructing a view over a C string that is canonized first does. The
/// view is built by the checked constructor, over what the buffer then holds.
pub open spec fn viewed_c_string<K: Fn(&str) -> Option<String>>(
    canon: K,
    before: Seq<u8>,
    after: Seq<u8>,
    code: ZResult,
    slot: z_view_keyexpr_t,
) -> bool {
    exists|n: usize, first_code: ZResult|
        ends_at(before, n as int) && #[trigger] canonized_c_string(
            canon,
            before,
            n,
            after,
            first_code,
        ) && (if first_code == Z_OK {
            exists|m: usize| #[trigger]
                ends_at(after, m as int) && checked(canon, after.take(m as int), code, slot)
        } else {
            code == first_code && slot.state is None
        })
}

proof fn lemma_viewed_c_string<K: Fn(&str) -> Option<String>>(
    canon: K,
    before: Seq<u8>,
    n: usize,
    after: Seq<u8>,
    first_code: ZResult,
    m: usize,
    code: ZResult,
    slot: z_view_keyexpr_t,
)
    requires
        ends_at(before, n as int),
        canonized_c_string(canon, before, n, after, first_code),
        if first_code == Z_OK {
            ends_at(after, m as int) && checked(canon, after.take(m as int), code, slot)
        } else {
            code == first_code && slot.state is None
        },
    ensures
        viewed_c_string(canon, before, after, code, slot),
{
}

/// Constructs a view over a C string, canonizing it in place first.
pub fn z_view_keyexpr_from_str_autocanonize<K: Fn(&str) -> Option<String>>(
    this_: Option<&mut z_view_keyexpr_t>,
    expr: Option<&mut Vec<u8>>,
    canon: &K,
) -> (code: ZResult)
    requires
        forall|t: &str| call_requires(canon, (t,)),
        expr matches Some(buffer) ==> buffer@.contains(0),
    ensures
        match (this_, expr) {
            (Some(slot), Some(buffer)) => viewed_c_string(
                *canon,
                buffer@,
                final(buffer)@,
                code,
                *final(slot),
            ),
            (Some(slot), None) => code == Z_ENULL && final(slot).state is None,
            (None, Some(buffer)) => code == Z_ENULL && *final(buffer) == *buffer,
            (None, None) => code == Z_ENULL,
        },
{
    let slot = match this_ {
        Some(slot) => slot,
        None => {
            return Z_ENULL;
        },
    };
    slot.state = None;
    match expr {
        None => Z_ENULL,
        Some(buffer) => {
            let ghost before = buffer@;
            let (first_code, len) = rewrite_c_string(buffer, canon);
            let ghost n = choose|n: usize| #[trigger]
                ends_at(before, n as int) && canonized_c_string(
                    *canon,
                    before,
                    n,
                    buffer@,
                    first_code,
                );
            if first_code != Z_OK {
                proof {
                    lemma_viewed_c_string(
                        *canon,
                        before,
                        n,
                        buffer@,
                        first_code,
                        0,
                        first_code,
                        *slot,
                    );
                }
                return first_code;
            }
            proof {
                assert(buffer@[len as int] == 0);
                assert(buffer@.contains(0));
            }
            let m: usize = c_string_len(buffer);
            let code = build_checked(slot, first(buffer.as_slice(), m), canon);
            proof {
                lemma_viewed_c_string(*canon, before, n, buffer@, first_code, m, code, *slot);
            }
            code
        },
    }
}

/// What constructing a view over `n` bytes that are canonized first does.
pub open spec fn viewed_run<K: Fn(&str) -> Option<String>>(
    canon: K,
    before: Seq<u8>,
    n: usize,
    after: Seq<u8>,
    n_after: usize,
    code: ZResult,
    slot: z_view_keyexpr_t,
) -> bool {
    exists|first_code: ZResult| #[trigger]
        canonized_in_place(canon, before, n, after, n_after, first_code) && (if first_code
            == Z_OK {
            checked(canon, after.take(n_after as int), code, slot)
        } else {
            code == first_code && slot.state is None
        })
}

proof fn lemma_viewed_run<K: Fn(&str) -> Option<String>>(
    canon: K,
    before: Seq<u8>,
    n: usize,
    after: Seq<u8>,
    n_after: usize,
    first_code: ZResult,
    code: ZResult,
    slot: z_view_keyexpr_t,
)
    requires
        canonized_in_place(canon, before, n, after, n_after, first_code),
        if first_code == Z_OK {
            checked(canon, after.take(n_after as int), code, slot)
        } else {
            code == first_code && slot.state is None
        },
    ensures
        viewed_run(canon, before, n, after, n_after, code, slot),
{
}

/// Constructs a view over the first `len` bytes at `start`, canonizing them and
/// their length in place first.
pub fn z_view_keyexpr_from_substr_autocanonize<K: Fn(&str) -> Option<String>>(
    this_: Option<&mut z_view_keyexpr_t>,
    start: Option<&mut Vec<u8>>,
    len: Option<&mut usize>,
    canon: &K,
) -> (code: ZResult)
    requires
        forall|t: &str| call_requires(canon, (t,)),
        (start, len) matches (Some(buffer), Some(n)) ==> *n <= buffer@.len(),
    ensures
        match (this_, start, len) {
            (Some(slot), Some(buffer), Some(n)) => viewed_run(
                *canon,
                buffer@,
                *n,
                final(buffer)@,
                *final(n),
                code,
                *final(slot),
            ),
            (Some(slot), _, _) => code == Z_ENULL && final(slot).state is None,
            (None, _, _) => code == Z_ENULL,
        },
        !(this_ is Some && start is Some && len is Some) ==> {
            &&& start matches Some(buffer) ==> *final(buffer) == *buffer
            &&& len matches Some(n) ==> *final(n) == *n
        },
{
    let slot = match this_ {
        Some(slot) => slot,
        None => {
            return Z_ENULL;
        },
    };
    slot.state = None;
    match (start, len) {
        (Some(buffer), Some(len)) => {
            let ghost before = buffer@;
            let ghost n = *len;
            let first_code = rewrite(buffer, len, canon);
            if first_code != Z_OK {
                proof {
                    lemma_viewed_run(
                        *canon,
                        before,
                        n,
                        buffer@,
                        *len,
                        first_code,
                        first_code,
                        *slot,
                    );
                }
                return first_code;
            }
            let code = build_checked(slot, first(buffer.as_slice(), *len), canon);
            proof {
                lemma_viewed_run(*canon, before, n, buffer@, *len, first_code, code, *slot);
            }
            code
        },
        _ => Z_ENULL,
    }
}

/// Whether `matcher`, asked about the chunks of two texts, may answer `answer`.
pub open spec fn matcher_says<M: Fn(&Vec<String>, &Vec<String>) -> bool>(
    matcher: M,
    left: Seq<char>,
    right: Seq<char>,
    answer: bool,
) -> bool {
    exists|a: &Vec<String>, b: &Vec<String>|
        is_split(left, '/', texts(a@)) && is_split(right, '/', texts(b@))
            && #[trigger] call_ensures(matcher, (a, b), answer)
}

/// Whether `r` is what asking a matching function about two key expressions comes
/// to: nothing matches a dead one.
pub open spec fn matched<M: Fn(&Vec<String>, &Vec<String>) -> bool>(
    matcher: M,
    left: Option<Seq<char>>,
    right: Option<Seq<char>>,
    r: bool,
) -> bool {
    match (left, right) {
        (Some(a), Some(b)) => matcher_says(matcher, a, b, r),
        _ => !r,
    }
}

/// Whether a matching function decides by the texts of the chunks alone: asked
/// twice about the same texts it answers the same.
pub open spec fn decides_by_text<M: Fn(&Vec<String>, &Vec<String>) -> bool>(matcher: M) -> bool {
    forall|a: &Vec<String>, b: &Vec<String>, c: &Vec<String>, d: &Vec<String>, x: bool, y: bool|
        #![trigger call_ensures(matcher, (a, b), x), call_ensures(matcher, (c, d), y)]
        texts(a@) == texts(c@) && texts(b@) == texts(d@) && call_ensures(matcher, (a, b), x)
            && call_ensures(matcher, (c, d), y) ==> x == y
}

/// Whether a matching function decides by the texts of the chunks alone, whichever
/// of the two lists comes first.
pub open spec fn decides_in_either_order<M: Fn(&Vec<String>, &Vec<String>) -> bool>(
    matcher: M,
) -> bool {
    forall|a: &Vec<String>, b: &Vec<String>, c: &Vec<String>, d: &Vec<String>, x: bool, y: bool|
        #![trigger call_ensures(matcher, (a, b), x), call_ensures(matcher, (c, d), y)]
        texts(a@) == texts(d@) && texts(b@) == texts(c@) && call_ensures(matcher, (a, b), x)
            && call_ensures(matcher, (c, d), y) ==> x == y
}

/// Asks a matching function about two texts, cut into their chunks.
pub fn ask<M: Fn(&Vec<String>, &Vec<String>) -> bool>(
    left: &str,
    right: &str,
    matcher: &M,
) -> (answer: bool)
    requires
        forall|a: &Vec<String>, b: &Vec<String>| call_requires(matcher, (a, b)),
    ensures
        matcher_says(*matcher, left@, right@, answer),
{
    let a = split(left, '/');
    let b = split(right, '/');
    let answer: bool = matcher(&a, &b);
    assert(call_ensures(*matcher, (&a, &b), answer));
    answer
}

/// Whether two key expressions intersect: whether some key matches both. Nothing
/// intersects a dead one.
pub fn z_keyexpr_intersects<M: Fn(&Vec<String>, &Vec<String>) -> bool>(
    left: Option<&z_loaned_keyexpr_t>,
    right: Option<&z_loaned_keyexpr_t>,
    intersects: &M,
) -> (r: bool)
    requires
        forall|a: &Vec<String>, b: &Vec<String>| call_requires(intersects, (a, b)),
    ensures
        matched(*intersects, text_of(left), text_of(right), r),
{
    match (keyexpr_str(left), keyexpr_str(right)) {
        (Some(a), Some(b)) => ask(a, b, intersects),
        _ => false,
    }
}

/// Intersection is symmetric: given a matching function that decides in either
/// order, two key expressions intersect where they do with their places changed.
/// Nothing intersects a dead one.
pub proof fn lemma_intersection_is_symmetric<M: Fn(&Vec<String>, &Vec<String>) -> bool>(
    intersects: M,
    left: Option<&z_loaned_keyexpr_t>,
    right: Option<&z_loaned_keyexpr_t>,
    r: bool,
    swapped: bool,
)
    requires
        decides_in_either_order(intersects),
        matched(intersects, text_of(left), text_of(right), r),
        matched(intersects, text_of(right), text_of(left), swapped),
    ensures
        r == swapped,
        text_of(left) is None || text_of(right) is None ==> !r,
{
    if text_of(left) is Some && text_of(right) is Some {
        let (s, t) = (text_of(left)->0, text_of(right)->0);
        let (a, b) = choose|a: &Vec<String>, b: &Vec<String>|
            is_split(s, '/', texts(a@)) && is_split(t, '/', texts(b@)) && #[trigger] call_ensures(
                intersects,
                (a, b),
                r,
            );
        let (c, d) = choose|c: &Vec<String>, d: &Vec<String>|
            is_split(t, '/', texts(c@)) && is_split(s, '/', texts(d@)) && #[trigger] call_ensures(
                intersects,
                (c, d),
                swapped,
            );
        lemma_split_is_unique(s, '/', texts(a@), texts(d@));
        lemma_split_is_unique(t, '/', texts(b@), texts(c@));
    }
}

proof fn lemma_one_answer<M: Fn(&Vec<String>, &Vec<String>) -> bool>(
    matcher: M,
    left: Seq<char>,
    right: Seq<char>,
    x: bool,
    y: bool,
)
    requires
        decides_by_text(matcher),
        matcher_says(matcher, left, right, x),
        matcher_says(matcher, left, right, y),
    ensures
        x == y,
{
    let (a, b) = choose|a: &Vec<String>, b: &Vec<String>|
        is_split(left, '/', texts(a@)) && is_split(right, '/', texts(b@))
            && #[trigger] call_ensures(matcher, (a, b), x);
    let (c, d) = choose|c: &Vec<String>, d: &Vec<String>|
        is_split(left, '/', texts(c@)) && is_split(right, '/', texts(d@))
            && #[trigger] call_ensures(matcher, (c, d), y);
    lemma_split_is_unique(left, '/', texts(a@), texts(c@));
    lemma_split_is_unique(right, '/', texts(b@), texts(d@));
}

/// Whether `left` matches every key that `right` matches.
pub fn z_keyexpr_includes<M: Fn(&Vec<String>, &Vec<String>) -> bool>(
    left: Option<&z_loaned_keyexpr_t>,
    right: Option<&z_loaned_keyexpr_t>,
    includes: &M,
) -> (r: bool)
    requires
        forall|a: &Vec<String>, b: &Vec<String>| call_requires(includes, (a, b)),
    ensures
        matched(*includes, text_of(left), text_of(right), r),
{
    match (keyexpr_str(left), keyexpr_str(right)) {
        (Some(a), Some(b)) => ask(a, b, includes),
        _ => false,
    }
}

/// Whether two key expressions are the same text.
pub fn z_keyexpr_equals(
    left: Option<&z_loaned_keyexpr_t>,
    right: Option<&z_loaned_keyexpr_t>,
) -> (r: bool)
    ensures
        r == same_keyexpr(text_of(left), text_of(right)),
{
    match (keyexpr_str(left), keyexpr_str(right)) {
        (Some(a), Some(b)) => same_text(a, b),
        _ => false,
    }
}

/// No key matches both.
pub const Z_KEYEXPR_INTERSECTION_LEVEL_DISJOINT: i32 = 0;

/// Some key matches both.
pub const Z_KEYEXPR_INTERSECTION_LEVEL_INTERSECTS: i32 = 1;

/// Every key that matches the right one matches the left one.
pub const Z_KEYEXPR_INTERSECTION_LEVEL_INCLUDES: i32 = 2;

/// The two are the same text.
pub const Z_KEYEXPR_INTERSECTION_LEVEL_EQUALS: i32 = 3;

/// The strongest relation that holds, given the three predicates.
pub open spec fn relation(equals: bool, includes: bool, intersects: bool) -> i32 {
    if equals {
        Z_KEYEXPR_INTERSECTION_LEVEL_EQUALS
    } else if includes {
        Z_KEYEXPR_INTERSECTION_LEVEL_INCLUDES
    } else if intersects {
        Z_KEYEXPR_INTERSECTION_LEVEL_INTERSECTS
    } else {
        Z_KEYEXPR_INTERSECTION_LEVEL_DISJOINT
    }
}

/// Whether two key expressions are the same text.
pub open spec fn same_keyexpr(left: Option<Seq<char>>, right: Option<Seq<char>>) -> bool {
    left is Some && left == right
}

/// Whether `level` is the strongest relation that holds between two key
/// expressions, given what the matching functions answer. Nothing is asked of them
/// where an answer is not needed.
pub open spec fn related<
    I: Fn(&Vec<String>, &Vec<String>) -> bool,
    M: Fn(&Vec<String>, &Vec<String>) -> bool,
>(
    includes: I,
    intersects: M,
    left: Option<Seq<char>>,
    right: Option<Seq<char>>,
    level: i32,
) -> bool {
    if same_keyexpr(left, right) {
        level == Z_KEYEXPR_INTERSECTION_LEVEL_EQUALS
    } else {
        exists|i: bool, m: bool|
            level == #[trigger] relation(false, i, m) && matched(includes, left, right, i) && (i
                || matched(intersects, left, right, m))
    }
}

/// The strongest relation that holds between two key expressions, by the same
/// three predicates that answer for one level each.
pub fn z_keyexpr_relation_to<
    I: Fn(&Vec<String>, &Vec<String>) -> bool,
    M: Fn(&Vec<String>, &Vec<String>) -> bool,
>(
    left: Option<&z_loaned_keyexpr_t>,
    right: Option<&z_loaned_keyexpr_t>,
    includes: &I,
    intersects: &M,
) -> (level: i32)
    requires
        forall|a: &Vec<String>, b: &Vec<String>| call_requires(includes, (a, b)),
        forall|a: &Vec<String>, b: &Vec<String>| call_requires(intersects, (a, b)),
    ensures
        related(*includes, *intersects, text_of(left), text_of(right), level),
{
    if z_keyexpr_equals(left, right) {
        return Z_KEYEXPR_INTERSECTION_LEVEL_EQUALS;
    }
    if z_keyexpr_includes(left, right, includes) {
        assert(relation(false, true, true) == Z_KEYEXPR_INTERSECTION_LEVEL_INCLUDES);
        return Z_KEYEXPR_INTERSECTION_LEVEL_INCLUDES;
    }
    if z_keyexpr_intersects(left, right, intersects) {
        assert(relation(false, false, true) == Z_KEYEXPR_INTERSECTION_LEVEL_INTERSECTS);
        return Z_KEYEXPR_INTERSECTION_LEVEL_INTERSECTS;
    }
    assert(relation(false, false, false) == Z_KEYEXPR_INTERSECTION_LEVEL_DISJOINT);
    Z_KEYEXPR_INTERSECTION_LEVEL_DISJOINT
}

/// The levels nest and agree with the predicates: where equality implies
/// inclusion and inclusion implies intersection, a level is reached exactly where
/// its predicate holds.
pub proof fn lemma_relation_agrees_with_its_predicates(
    equals: bool,
    includes: bool,
    intersects: bool,
)
    requires
        equals ==> includes,
        includes ==> intersects,
    ensures
        equals <==> relation(equals, includes, intersects) >= Z_KEYEXPR_INTERSECTION_LEVEL_EQUALS,
        includes <==> relation(equals, includes, intersects)
            >= Z_KEYEXPR_INTERSECTION_LEVEL_INCLUDES,
        intersects <==> relation(equals, includes, intersects)
            >= Z_KEYEXPR_INTERSECTION_LEVEL_INTERSECTS,
{
}

/// The level is the strongest of what the three calls answer, where the matching
/// functions decide by text: it is the level of equality exactly where the two are
/// equal, else that of inclusion exactly where one includes the other, else that of
/// intersection exactly where they intersect, and else the lowest.
pub proof fn lemma_the_level_is_what_the_three_calls_answer<
    I: Fn(&Vec<String>, &Vec<String>) -> bool,
    M: Fn(&Vec<String>, &Vec<String>) -> bool,
>(
    includes_by: I,
    intersects_by: M,
    left: Option<&z_loaned_keyexpr_t>,
    right: Option<&z_loaned_keyexpr_t>,
    level: i32,
    equals: bool,
    includes: bool,
    intersects: bool,
)
    requires
        decides_by_text(includes_by),
        decides_by_text(intersects_by),
        related(includes_by, intersects_by, text_of(left), text_of(right), level),
        equals == same_keyexpr(text_of(left), text_of(right)),
        matched(includes_by, text_of(left), text_of(right), includes),
        matched(intersects_by, text_of(left), text_of(right), intersects),
    ensures
        level == relation(equals, includes, intersects),
        level == Z_KEYEXPR_INTERSECTION_LEVEL_EQUALS <==> equals,
        level == Z_KEYEXPR_INTERSECTION_LEVEL_INCLUDES <==> !equals && includes,
        level == Z_KEYEXPR_INTERSECTION_LEVEL_INTERSECTS <==> !equals && !includes && intersects,
        level == Z_KEYEXPR_INTERSECTION_LEVEL_DISJOINT <==> !equals && !includes && !intersects,
        text_of(left) is None || text_of(right) is None ==> level
            == Z_KEYEXPR_INTERSECTION_LEVEL_DISJOINT,
{
    if !equals {
        let (i, m) = choose|i: bool, m: bool|
            level == #[trigger] relation(false, i, m) && matched(
                includes_by,
                text_of(left),
                text_of(right),
                i,
            ) && (i || matched(intersects_by, text_of(left), text_of(right), m));
        if text_of(left) is Some && text_of(right) is Some {
            let (s, t) = (text_of(left)->0, text_of(right)->0);
            lemma_one_answer(includes_by, s, t, i, includes);
            if !i {
                lemma_one_answer(intersects_by, s, t, m, intersects);
            }
        }
    }
}

/// Appends a run of bytes to a key expression, with nothing between them, and
/// canonizes the result.
pub fn z_keyexpr_concat<K: Fn(&str) -> Option<String>>(
    this_: Option<&mut z_owned_keyexpr_t>,
    left: Option<&z_loaned_keyexpr_t>,
    right_start: Option<&[u8]>,
    right_len: usize,
    canon: &K,
) -> (code: ZResult)
    requires
        forall|t: &str| call_requires(canon, (t,)),
        right_start matches Some(bytes) ==> right_len <= bytes@.len(),
    ensures
        match this_ {
            None => code == Z_ENULL,
            Some(slot) => match (text_of(left), right_start) {
                (Some(a), Some(bytes)) if valid_utf8(bytes@.take(right_len as int)) => canonized(
                    *canon,
                    a + decode_utf8(bytes@.take(right_len as int)),
                    code,
                    *final(slot),
                ),
                _ => code == Z_ENULL && final(slot).state is None,
            },
        },
{
    let slot = match this_ {
        Some(slot) => slot,
        None => {
            return Z_ENULL;
        },
    };
    slot.state = None;
    match (keyexpr_str(left), right_start) {
        (Some(a), Some(bytes)) => match utf8_text(first(bytes, right_len)) {
            Some(b) => {
                let text = a.to_owned().concat(b);
                build_canonized(slot, text.as_str(), canon)
            },
            None => Z_ENULL,
        },
        _ => Z_ENULL,
    }
}

/// Joins two key expressions with a slash and canonizes the result.
pub fn z_keyexpr_join<K: Fn(&str) -> Option<String>>(
    this_: Option<&mut z_owned_keyexpr_t>,
    left: Option<&z_loaned_keyexpr_t>,
    right: Option<&z_loaned_keyexpr_t>,
    canon: &K,
) -> (code: ZResult)
    requires
        forall|t: &str| call_requires(canon, (t,)),
    ensures
        match this_ {
            None => code == Z_ENULL,
            Some(slot) => match (text_of(left), text_of(right)) {
                (Some(a), Some(b)) => canonized(*canon, a + seq!['/'] + b, code, *final(slot)),
                _ => code == Z_ENULL && final(slot).state is None,
            },
        },
{
    let slot = match this_ {
        Some(slot) => slot,
        None => {
            return Z_ENULL;
        },
    };
    slot.state = None;
    match (keyexpr_str(left), keyexpr_str(right)) {
        (Some(a), Some(b)) => {
            proof {
                reveal_strlit("/");
            }
            let text = a.to_owned().concat("/").concat(b);
            assert(text@ =~= a@ + seq!['/'] + b@);
            build_canonized(slot, text.as_str(), canon)
        },
        _ => Z_ENULL,
    }
}

/// Copies a key expression. A declaration belongs to the value it was made on, so
/// the copy has no wire alias.
pub fn z_keyexpr_clone(dst: Option<&mut z_owned_keyexpr_t>, this_: Option<&z_loaned_keyexpr_t>)
    ensures
        dst matches Some(slot) ==> holds_text(*final(slot), text_of(this_)),
{
    if let Some(slot) = dst {
        slot.state = match keyexpr_str(this_) {
            Some(text) => Some(KeyexprState::new(text.to_owned())),
            None => None,
        };
    }
}

/// Borrows an owned key expression.
pub fn z_keyexpr_loan(this_: Option<&z_owned_keyexpr_t>) -> (loaned: Option<&z_loaned_keyexpr_t>)
    ensures
        loaned == this_,
{
    this_
}

/// Frees an owned key expression. A declaration is not retracted by it.
pub fn z_keyexpr_drop(this_: Option<&mut z_moved_keyexpr_t>)
    ensures
        this_ matches Some(moved) ==> final(moved)._this.state is None,
{
    let _ = take(this_);
}

/// Whether an owned key expression is live.
pub fn z_internal_keyexpr_check(this_: Option<&z_owned_keyexpr_t>) -> (r: bool)
    ensures
        r == (live(this_) is Some),
{
    is_live(this_)
}

/// Makes an owned key expression the gravestone.
pub fn z_internal_keyexpr_null(this_: Option<&mut z_owned_keyexpr_t>)
    ensures
        this_ matches Some(slot) ==> final(slot).state is None,
{
    gravestone(this_)
}

/// Makes a view the gravestone.
pub fn z_view_keyexpr_empty(this_: Option<&mut z_view_keyexpr_t>)
    ensures
        this_ matches Some(slot) ==> final(slot).state is None,
{
    gravestone(this_)
}

/// Whether a view is the gravestone.
pub fn z_view_keyexpr_is_empty(this_: Option<&z_view_keyexpr_t>) -> (r: bool)
    ensures
        r == (live(this_) is None),
{
    !is_live(this_)
}

/// What declaring a key expression comes to, given the wire alias the session
/// bound: there is none once its aliases are used up.
pub open spec fn declared_with(
    text: Seq<char>,
    mapping: Option<u64>,
    code: ZResult,
    slot: z_owned_keyexpr_t,
) -> bool {
    match mapping {
        Some(mapping) => {
            &&& code == Z_OK
            &&& slot.state matches Some(state) && state.keyexpr@ == text && state.mapping == Some(
                mapping,
            )
        },
        None => code == Z_EINVAL && slot.state is None,
    }
}

/// Whether `declare`, asked by a session to bind `text`, may answer `mapping`.
pub open spec fn declare_says<D: FnOnce(u64, &String) -> Option<u64>>(
    declare: D,
    session: u64,
    text: Seq<char>,
    mapping: Option<u64>,
) -> bool {
    exists|t: &String| t@ == text && #[trigger] call_ensures(declare, (session, t), mapping)
}

/// Whether a key expression was declared on a session, whatever alias it got.
pub open spec fn keyexpr_declared<D: FnOnce(u64, &String) -> Option<u64>>(
    declare: D,
    session: u64,
    text: Seq<char>,
    code: ZResult,
    slot: z_owned_keyexpr_t,
) -> bool {
    exists|mapping: Option<u64>| #[trigger]
        declare_says(declare, session, text, mapping) && declared_with(text, mapping, code, slot)
}

proof fn lemma_keyexpr_declared<D: FnOnce(u64, &String) -> Option<u64>>(
    declare: D,
    session: u64,
    text: Seq<char>,
    mapping: Option<u64>,
    code: ZResult,
    slot: z_owned_keyexpr_t,
)
    requires
        declare_says(declare, session, text, mapping),
        declared_with(text, mapping, code, slot),
    ensures
        keyexpr_declared(declare, session, text, code, slot),
{
}

/// Declares a key expression, binding a wire alias to it. `declare` makes the
/// session bind one.
pub fn z_declare_keyexpr<D: FnOnce(u64, &String) -> Option<u64>>(
    session: Option<&z_loaned_session_t>,
    declared_key_expr: Option<&mut z_owned_keyexpr_t>,
    key_expr: Option<&z_loaned_keyexpr_t>,
    declare: D,
) -> (code: ZResult)
    requires
        (declared_key_expr, live(session), text_of(key_expr)) matches (
            Some(_),
            Some(state),
            Some(text),
        ) ==> forall|s: u64, t: &String|
            s == state.shared && t@ == text ==> #[trigger] call_requires(declare, (s, t)),
    ensures
        match declared_key_expr {
            None => code == Z_ENULL,
            Some(slot) => match (live(session), text_of(key_expr)) {
                (Some(state), Some(text)) => keyexpr_declared(
                    declare,
                    state.shared,
                    text,
                    code,
                    *final(slot),
                ),
                _ => code == Z_ENULL && final(slot).state is None,
            },
        },
{
    let slot = match declared_key_expr {
        Some(slot) => slot,
        None => {
            return Z_ENULL;
        },
    };
    slot.state = None;
    match (state_of(session), keyexpr_str(key_expr)) {
        (Some(state), Some(text)) => {
            let literal = text.to_owned();
            let mapping = declare(state.shared, &literal);
            proof {
                assert(call_ensures(declare, (state.shared, &literal), mapping));
                assert(declare_says(declare, state.shared, text@, mapping));
            }
            let code = match mapping {
                Some(mapping) => {
                    slot.state = Some(KeyexprState { keyexpr: literal, mapping: Some(mapping) });
                    Z_OK
                },
                None => Z_EINVAL,
            };
            proof {
                lemma_keyexpr_declared(declare, state.shared, text@, mapping, code, *slot);
            }
            code
        },
        _ => Z_ENULL,
    }
}

/// A declaration to be retracted from a session.
#[derive(Clone, Copy, Debug, PartialEq, Eq, Structural)]
pub struct KeyexprRetraction {
    pub session: u64,
    pub mapping: u64,
}

/// Retracts a declaration. The value is consumed on every path, also where there
/// is no session to retract it from. The retraction that is due is handed back.
pub fn z_undeclare_keyexpr(
    session: Option<&z_loaned_session_t>,
    key_expr: Option<&mut z_moved_keyexpr_t>,
) -> (r: (ZResult, Option<KeyexprRetraction>))
    ensures
        key_expr matches Some(moved) ==> final(moved)._this.state is None,
        r.0 == (if key_expr is Some && live(session) is Some {
            Z_OK
        } else {
            Z_ENULL
        }),
        r.1 == (match (live(session), key_expr) {
            (Some(state), Some(moved)) => match moved._this.state {
                Some(KeyexprState { mapping: Some(mapping), .. }) => Some(
                    KeyexprRetraction { session: state.shared, mapping },
                ),
                _ => None,
            },
            _ => None,
        }),
{
    if key_expr.is_none() {
        return (Z_ENULL, None);
    }
    let taken = take(key_expr);
    match state_of(session) {
        None => (Z_ENULL, None),
        Some(state) => match taken {
            Some(KeyexprState { mapping: Some(mapping), .. }) => (
                Z_OK,
                Some(KeyexprRetraction { session: state.shared, mapping }),
            ),
            _ => (Z_OK, None),
        },
    }
}

} // verus!
