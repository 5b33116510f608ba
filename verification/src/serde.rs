//! Serializers and deserializers.
//!
//! Arithmetic values are fixed-width, least significant byte first. Lengths, of
//! a sequence and of the bytes of a string, are variable-length. The format does
//! not describe itself: a reader has to ask for what was written.
//!
//! A floating-point value travels as its bit pattern.

use vstd::prelude::*;

use crate::bytes::z_loaned_bytes_t;
use crate::bytes::z_owned_bytes_t;
use crate::bytes::BytesState;
use crate::codec::as_unsigned;
use crate::codec::decode_le;
use crate::codec::decode_zint;
use crate::codec::encode_le;
use crate::codec::encode_zint;
use crate::codec::le_bytes;
use crate::codec::le_limit;
use crate::codec::le_value;
use crate::codec::lemma_i32_round_trip;
use crate::codec::lemma_le_bytes_of_value;
use crate::codec::lemma_u32_round_trip;
use crate::codec::lemma_u64_round_trip;
use crate::codec::lemma_unvle_bounds;
use crate::codec::lemma_vle_round_trip;
use crate::codec::unvle;
use crate::codec::vle;
use crate::handle::gravestone;
use crate::handle::is_live;
use crate::handle::live;
use crate::handle::take;
use crate::handle::Moved;
use crate::handle::Owned;
use crate::result::ZResult;
use crate::result::Z_EDESERIALIZE;
use crate::result::Z_ENULL;
use crate::result::Z_EPARSE;
use crate::result::Z_OK;
use crate::slice::SliceRepr;
use crate::string::owned_string_from;
use crate::string::z_loaned_string_t;
use crate::string::z_owned_string_t;

verus! {

/// What has been serialized so far.
pub struct WriterState {
    pub buf: Vec<u8>,
}

/// An owned serializer.
pub type ze_owned_serializer_t = Owned<WriterState>;

/// A borrowed serializer: the same slot.
pub type ze_loaned_serializer_t = Owned<WriterState>;

/// A serializer on its way to be consumed.
pub type ze_moved_serializer_t = Moved<WriterState>;

/// A cursor over a serialized payload. It borrows the payload and owns nothing.
pub struct ze_deserializer_t<'a> {
    pub payload: &'a [u8],
    pub pos: usize,
}

/// Where a serializer stands after `more` was written to it.
pub open spec fn extended(before: ze_loaned_serializer_t, more: Seq<u8>, after: ze_loaned_serializer_t) -> bool {
    match before.state {
        Some(was) => after.state matches Some(is) && is.buf@ == was.buf@ + more,
        None => after.state is None,
    }
}

/// What writing to a nullable serializer returns.
pub open spec fn write_code(this_: Option<ze_loaned_serializer_t>) -> ZResult {
    match this_ {
        Some(slot) if slot.state is Some => Z_OK,
        _ => Z_ENULL,
    }
}

/// Constructs an empty serializer.
pub fn ze_serializer_empty(this_: Option<&mut ze_owned_serializer_t>) -> (code: ZResult)
    ensures
        code == (if this_ is None {
            Z_ENULL
        } else {
            Z_OK
        }),
        this_ matches Some(slot) ==> (final(slot).state matches Some(state) && state.buf@ == Seq::<
            u8,
        >::empty()),
{
    match this_ {
        None => Z_ENULL,
        Some(slot) => {
            slot.state = Some(WriterState { buf: Vec::new() });
            Z_OK
        },
    }
}

/// Borrows a serializer mutably.
pub fn ze_serializer_loan_mut(this_: Option<&mut ze_owned_serializer_t>) -> (loaned: Option<
    &mut ze_loaned_serializer_t,
>)
    ensures
        loaned == this_,
{
    this_
}

/// Borrows a serializer.
pub fn ze_serializer_loan(this_: Option<&ze_owned_serializer_t>) -> (loaned: Option<
    &ze_loaned_serializer_t,
>)
    ensures
        loaned == this_,
{
    this_
}

/// Finishes a serializer into a payload, consuming it. A dead serializer leaves
/// a dead payload.
pub fn ze_serializer_finish(
    this_: Option<&mut ze_moved_serializer_t>,
    bytes: Option<&mut z_owned_bytes_t>,
)
    ensures
        this_ matches Some(moved) ==> final(moved)._this.state is None,
        bytes matches Some(slot) ==> match this_ {
            Some(moved) => match moved._this.state {
                Some(was) => final(slot).state matches Some(is) && is.payload@ == was.buf@,
                None => final(slot).state is None,
            },
            None => final(slot).state is None,
        },
{
    let taken = take(this_);
    if let Some(slot) = bytes {
        slot.state = match taken {
            Some(state) => Some(BytesState { payload: state.buf }),
            None => None,
        };
    }
}

/// Frees a serializer.
pub fn ze_serializer_drop(this_: Option<&mut ze_moved_serializer_t>)
    ensures
        this_ matches Some(moved) ==> final(moved)._this.state is None,
{
    let _ = take(this_);
}

/// Whether a serializer is live.
pub fn ze_internal_serializer_check(this_: Option<&ze_owned_serializer_t>) -> (r: bool)
    ensures
        r == (live(this_) is Some),
{
    is_live(this_)
}

/// Makes a serializer the gravestone.
pub fn ze_internal_serializer_null(this_: Option<&mut ze_owned_serializer_t>)
    ensures
        this_ matches Some(slot) ==> final(slot).state is None,
{
    gravestone(this_)
}

/// Appends a variable-length number.
pub fn push_zint(state: &mut WriterState, v: u64)
    ensures
        final(state).buf@ == old(state).buf@ + vle(v),
{
    encode_zint(&mut state.buf, v);
}

/// Appends bytes.
fn push_bytes(state: &mut WriterState, bytes: &[u8])
    ensures
        final(state).buf@ == old(state).buf@ + bytes@,
{
    let mut i: usize = 0;
    while i < bytes.len()
        invariant
            i <= bytes@.len(),
            state.buf@ == old(state).buf@ + bytes@.take(i as int),
        decreases bytes@.len() - i,
    {
        state.buf.push(bytes[i]);
        i = i + 1;
        assert(state.buf@ =~= old(state).buf@ + bytes@.take(i as int));
    }
    assert(bytes@.take(i as int) =~= bytes@);
}

/// Serializes the length of a sequence.
pub fn ze_serializer_serialize_sequence_length(
    this_: Option<&mut ze_loaned_serializer_t>,
    len: usize,
) -> (code: ZResult)
    ensures
        match this_ {
            Some(slot) => {
                &&& code == write_code(Some(*slot))
                &&& extended(*slot, vle(len as u64), *final(slot))
            },
            None => code == Z_ENULL,
        },
{
    match this_ {
        Some(slot) => match &mut slot.state {
            Some(state) => {
                push_zint(state, len as u64);
                Z_OK
            },
            None => Z_ENULL,
        },
        None => Z_ENULL,
    }
}

fn serialize_le(this_: Option<&mut ze_loaned_serializer_t>, v: u64, n: u8) -> (code: ZResult)
    ensures
        match this_ {
            Some(slot) => {
                &&& code == write_code(Some(*slot))
                &&& extended(*slot, le_bytes(v as nat, n as nat), *final(slot))
            },
            None => code == Z_ENULL,
        },
{
    match this_ {
        Some(slot) => match &mut slot.state {
            Some(state) => {
                encode_le(&mut state.buf, v, n);
                Z_OK
            },
            None => Z_ENULL,
        },
        None => Z_ENULL,
    }
}

/// Serializes an `int32`: four bytes in two's complement.
pub fn ze_serializer_serialize_int32(
    this_: Option<&mut ze_loaned_serializer_t>,
    val: i32,
) -> (code: ZResult)
    ensures
        match this_ {
            Some(slot) => {
                &&& code == write_code(Some(*slot))
                &&& extended(*slot, le_bytes(as_unsigned(val), 4), *final(slot))
            },
            None => code == Z_ENULL,
        },
{
    let v: u64 = if val < 0 {
        (val as i64 + 0x1_0000_0000) as u64
    } else {
        val as u64
    };
    serialize_le(this_, v, 4)
}

/// Serializes a `uint32`: four bytes.
pub fn ze_serializer_serialize_uint32(
    this_: Option<&mut ze_loaned_serializer_t>,
    val: u32,
) -> (code: ZResult)
    ensures
        match this_ {
            Some(slot) => {
                &&& code == write_code(Some(*slot))
                &&& extended(*slot, le_bytes(val as nat, 4), *final(slot))
            },
            None => code == Z_ENULL,
        },
{
    serialize_le(this_, val as u64, 4)
}

/// Serializes a `uint64`: eight bytes.
pub fn ze_serializer_serialize_uint64(
    this_: Option<&mut ze_loaned_serializer_t>,
    val: u64,
) -> (code: ZResult)
    ensures
        match this_ {
            Some(slot) => {
                &&& code == write_code(Some(*slot))
                &&& extended(*slot, le_bytes(val as nat, 8), *final(slot))
            },
            None => code == Z_ENULL,
        },
{
    serialize_le(this_, val, 8)
}

/// Serializes a `float`, given its bit pattern: four bytes.
pub fn ze_serializer_serialize_float(
    this_: Option<&mut ze_loaned_serializer_t>,
    bits: u32,
) -> (code: ZResult)
    ensures
        match this_ {
            Some(slot) => {
                &&& code == write_code(Some(*slot))
                &&& extended(*slot, le_bytes(bits as nat, 4), *final(slot))
            },
            None => code == Z_ENULL,
        },
{
    serialize_le(this_, bits as u64, 4)
}

/// Serializes a `uint32` into a fresh payload.
pub fn ze_serialize_uint32(this_: Option<&mut z_owned_bytes_t>, val: u32) -> (code: ZResult)
    ensures
        code == (if this_ is None {
            Z_ENULL
        } else {
            Z_OK
        }),
        this_ matches Some(slot) ==> (final(slot).state matches Some(state) && state.payload@
            == le_bytes(val as nat, 4)),
{
    match this_ {
        None => Z_ENULL,
        Some(slot) => {
            let mut payload: Vec<u8> = Vec::new();
            encode_le(&mut payload, val as u64, 4);
            assert(payload@ =~= le_bytes(val as nat, 4));
            slot.state = Some(BytesState { payload });
            Z_OK
        },
    }
}

/// The bytes of a run with its length in front.
pub open spec fn prefixed(bytes: Seq<u8>) -> Seq<u8> {
    vle(bytes.len() as u64) + bytes
}

/// Serializes a run of bytes with its length in front.
pub fn serialize_bytes(this_: Option<&mut ze_loaned_serializer_t>, bytes: &[u8]) -> (code: ZResult)
    ensures
        match this_ {
            Some(slot) => {
                &&& code == write_code(Some(*slot))
                &&& extended(*slot, prefixed(bytes@), *final(slot))
            },
            None => code == Z_ENULL,
        },
{
    match this_ {
        Some(slot) => match &mut slot.state {
            Some(state) => {
                let ghost was = state.buf@;
                push_zint(state, bytes.len() as u64);
                push_bytes(state, bytes);
                assert(state.buf@ =~= was + prefixed(bytes@));
                Z_OK
            },
            None => Z_ENULL,
        },
        None => Z_ENULL,
    }
}

/// Serializes a C string, given its bytes before the terminator.
pub fn ze_serializer_serialize_str(
    this_: Option<&mut ze_loaned_serializer_t>,
    str_: Option<&[u8]>,
) -> (code: ZResult)
    ensures
        match (this_, str_) {
            (Some(slot), Some(bytes)) => {
                &&& code == write_code(Some(*slot))
                &&& extended(*slot, prefixed(bytes@), *final(slot))
            },
            (Some(slot), None) => code == Z_ENULL && *final(slot) == *slot,
            (None, _) => code == Z_ENULL,
        },
{
    match str_ {
        None => Z_ENULL,
        Some(bytes) => serialize_bytes(this_, bytes),
    }
}

/// Serializes a string. A dead one is serialized as an empty one.
pub fn ze_serializer_serialize_string(
    this_: Option<&mut ze_loaned_serializer_t>,
    str_: Option<&z_loaned_string_t>,
) -> (code: ZResult)
    ensures
        match (this_, str_) {
            (Some(slot), Some(string)) => {
                &&& code == write_code(Some(*slot))
                &&& extended(
                    *slot,
                    prefixed(
                        match string.bytes() {
                            Some(bytes) => bytes,
                            None => Seq::<u8>::empty(),
                        },
                    ),
                    *final(slot),
                )
            },
            (Some(slot), None) => code == Z_ENULL && *final(slot) == *slot,
            (None, _) => code == Z_ENULL,
        },
{
    match str_ {
        None => Z_ENULL,
        Some(SliceRepr::Held(bytes)) => serialize_bytes(this_, bytes.as_slice()),
        Some(SliceRepr::Viewed(bytes)) => serialize_bytes(this_, bytes),
        Some(SliceRepr::Null) => {
            let none: &[u8] = &[];
            assert(none@ =~= Seq::<u8>::empty());
            serialize_bytes(this_, none)
        },
    }
}

impl<'a> ze_deserializer_t<'a> {
    /// The bytes not read yet.
    pub open spec fn unread(&self) -> Seq<u8> {
        if self.pos >= self.payload@.len() {
            Seq::empty()
        } else {
            self.payload@.skip(self.pos as int)
        }
    }

    /// Whether the cursor is on its payload.
    pub open spec fn wf(&self) -> bool {
        self.pos <= self.payload@.len()
    }

    /// Whether `self` is `before` moved on by `n` bytes.
    pub open spec fn moved_on(&self, before: &ze_deserializer_t<'a>, n: nat) -> bool {
        &&& self.payload == before.payload
        &&& self.pos == before.pos + n
    }

    /// The bytes not read yet. A cursor beyond the payload has none.
    pub fn rest(&self) -> (rest: &'a [u8])
        ensures
            rest@ == self.unread(),
    {
        let end: usize = self.payload.len();
        if self.pos >= end {
            let none: &'static [u8] = &[];
            assert(none@ =~= Seq::<u8>::empty());
            none
        } else {
            let rest = vstd::slice::slice_subrange(self.payload, self.pos, end);
            assert(rest@ =~= self.unread());
            rest
        }
    }

    /// Consumes exactly `n` bytes, or none where fewer are left.
    pub fn take(&mut self, n: usize) -> (run: Option<&'a [u8]>)
        ensures
            old(self).wf() ==> final(self).wf(),
            match run {
                Some(run) => {
                    &&& n <= old(self).unread().len()
                    &&& run@ == old(self).unread().take(n as int)
                    &&& final(self).moved_on(old(self), n as nat)
                },
                None => {
                    &&& n > old(self).unread().len()
                    &&& *final(self) == *old(self)
                },
            },
    {
        let end: usize = self.payload.len();
        let rest = self.rest();
        if rest.len() < n {
            return None;
        }
        let run = vstd::slice::slice_subrange(rest, 0, n);
        proof {
            assert(run@ =~= old(self).unread().take(n as int));
            assert(n == 0 || self.pos + n <= end);
        }
        self.pos = self.pos + n;
        Some(run)
    }

    /// Consumes a variable-length number.
    pub fn take_zint(&mut self) -> (v: Option<u64>)
        ensures
            old(self).wf() ==> final(self).wf(),
            match unvle(old(self).unread()) {
                Some((value, used)) => {
                    &&& v == Some(value as u64)
                    &&& value <= u64::MAX
                    &&& final(self).moved_on(old(self), used)
                },
                None => v is None && *final(self) == *old(self),
            },
    {
        let end: usize = self.payload.len();
        let rest = self.rest();
        proof {
            assert(rest@.skip(0) =~= self.unread());
            lemma_unvle_bounds(self.unread());
        }
        match decode_zint(rest, 0) {
            Some((v, used)) => {
                assert(self.pos + used <= end);
                self.pos = self.pos + used;
                Some(v)
            },
            None => None,
        }
    }
}

/// Builds a deserializer over a payload. A dead payload has nothing to read.
pub fn ze_deserializer_from_bytes<'a>(this_: Option<&'a z_loaned_bytes_t>) -> (de: ze_deserializer_t<
    'a,
>)
    ensures
        de.wf(),
        de.pos == 0,
        de.payload@ == (match live(this_) {
            Some(state) => state.payload@,
            None => Seq::<u8>::empty(),
        }),
{
    match this_ {
        Some(Owned { state: Some(state) }) => ze_deserializer_t {
            payload: state.payload.as_slice(),
            pos: 0,
        },
        _ => {
            let none: &'static [u8] = &[];
            assert(none@ =~= Seq::<u8>::empty());
            ze_deserializer_t { payload: none, pos: 0 }
        },
    }
}

fn read_le<'a>(de: &mut ze_deserializer_t<'a>, n: u8) -> (v: Option<u64>)
    requires
        n <= 8,
    ensures
        old(de).wf() ==> final(de).wf(),
        if n <= old(de).unread().len() {
            &&& v matches Some(value) && value == le_value(old(de).unread().take(n as int))
                && value < le_limit(n as nat)
            &&& final(de).moved_on(old(de), n as nat)
        } else {
            v is None && *final(de) == *old(de)
        },
{
    match de.take(n as usize) {
        Some(run) => {
            proof {
                assert(run@.subrange(0, n as int) =~= run@);
                lemma_le_bytes_of_value(run@);
            }
            Some(decode_le(run, 0, n))
        },
        None => None,
    }
}

/// What reading `n` bytes returns and does to the cursor.
pub open spec fn fixed_read<'a>(
    before: ze_deserializer_t<'a>,
    after: ze_deserializer_t<'a>,
    n: nat,
    code: ZResult,
) -> bool {
    if n <= before.unread().len() {
        code == Z_OK && after.moved_on(&before, n)
    } else {
        code == Z_EDESERIALIZE && after == before
    }
}

/// Deserializes a `uint32`. Where fewer than four bytes are left, the cursor and
/// the output stay as they are.
pub fn ze_deserializer_deserialize_uint32<'a>(
    this_: Option<&mut ze_deserializer_t<'a>>,
    dst: Option<&mut u32>,
) -> (code: ZResult)
    ensures
        match (this_, dst) {
            (Some(de), Some(out)) => {
                &&& de.wf() ==> final(de).wf()
                &&& fixed_read(*de, *final(de), 4, code)
                &&& *final(out) == (if code == Z_OK {
                    le_value(de.unread().take(4)) as u32
                } else {
                    *out
                })
                &&& code == Z_OK ==> le_value(de.unread().take(4)) <= u32::MAX
            },
            (Some(de), None) => code == Z_ENULL && *final(de) == *de,
            (None, Some(out)) => code == Z_ENULL && *final(out) == *out,
            (None, None) => code == Z_ENULL,
        },
{
    match (this_, dst) {
        (Some(de), Some(out)) => match read_le(de, 4) {
            Some(v) => {
                proof {
                    reveal_with_fuel(le_limit, 5);
                }
                *out = v as u32;
                Z_OK
            },
            None => Z_EDESERIALIZE,
        },
        _ => Z_ENULL,
    }
}

/// Deserializes a `float`: its bit pattern.
pub fn ze_deserializer_deserialize_float<'a>(
    this_: Option<&mut ze_deserializer_t<'a>>,
    dst_bits: Option<&mut u32>,
) -> (code: ZResult)
    ensures
        match (this_, dst_bits) {
            (Some(de), Some(out)) => {
                &&& de.wf() ==> final(de).wf()
                &&& fixed_read(*de, *final(de), 4, code)
                &&& *final(out) == (if code == Z_OK {
                    le_value(de.unread().take(4)) as u32
                } else {
                    *out
                })
                &&& code == Z_OK ==> le_value(de.unread().take(4)) <= u32::MAX
            },
            (Some(de), None) => code == Z_ENULL && *final(de) == *de,
            (None, Some(out)) => code == Z_ENULL && *final(out) == *out,
            (None, None) => code == Z_ENULL,
        },
{
    ze_deserializer_deserialize_uint32(this_, dst_bits)
}

/// Deserializes an `int32`.
pub fn ze_deserializer_deserialize_int32<'a>(
    this_: Option<&mut ze_deserializer_t<'a>>,
    dst: Option<&mut i32>,
) -> (code: ZResult)
    ensures
        match (this_, dst) {
            (Some(de), Some(out)) => {
                &&& de.wf() ==> final(de).wf()
                &&& fixed_read(*de, *final(de), 4, code)
                &&& if code == Z_OK {
                    as_unsigned(*final(out)) == le_value(de.unread().take(4))
                } else {
                    *final(out) == *out
                }
            },
            (Some(de), None) => code == Z_ENULL && *final(de) == *de,
            (None, Some(out)) => code == Z_ENULL && *final(out) == *out,
            (None, None) => code == Z_ENULL,
        },
{
    match (this_, dst) {
        (Some(de), Some(out)) => match read_le(de, 4) {
            Some(v) => {
                proof {
                    reveal_with_fuel(le_limit, 5);
                }
                *out = if v >= 0x8000_0000 {
                    (v as i64 - 0x1_0000_0000) as i32
                } else {
                    v as i32
                };
                Z_OK
            },
            None => Z_EDESERIALIZE,
        },
        _ => Z_ENULL,
    }
}

/// Deserializes a `uint64`.
pub fn ze_deserializer_deserialize_uint64<'a>(
    this_: Option<&mut ze_deserializer_t<'a>>,
    dst: Option<&mut u64>,
) -> (code: ZResult)
    ensures
        match (this_, dst) {
            (Some(de), Some(out)) => {
                &&& de.wf() ==> final(de).wf()
                &&& fixed_read(*de, *final(de), 8, code)
                &&& if code == Z_OK {
                    *final(out) == le_value(de.unread().take(8))
                } else {
                    *final(out) == *out
                }
            },
            (Some(de), None) => code == Z_ENULL && *final(de) == *de,
            (None, Some(out)) => code == Z_ENULL && *final(out) == *out,
            (None, None) => code == Z_ENULL,
        },
{
    match (this_, dst) {
        (Some(de), Some(out)) => match read_le(de, 8) {
            Some(v) => {
                *out = v;
                Z_OK
            },
            None => Z_EDESERIALIZE,
        },
        _ => Z_ENULL,
    }
}

/// Deserializes the length of a sequence. One that does not fit a `usize` is a
/// malformed payload, not a value to truncate.
pub fn ze_deserializer_deserialize_sequence_length<'a>(
    this_: Option<&mut ze_deserializer_t<'a>>,
    len: Option<&mut usize>,
) -> (code: ZResult)
    ensures
        match (this_, len) {
            (Some(de), Some(out)) => {
                &&& de.wf() ==> final(de).wf()
                &&& match unvle(de.unread()) {
                    Some((value, used)) => {
                        &&& final(de).moved_on(de, used)
                        &&& if value <= usize::MAX {
                            code == Z_OK && *final(out) == value
                        } else {
                            code == Z_EDESERIALIZE && *final(out) == *out
                        }
                    },
                    None => {
                        &&& code == Z_EDESERIALIZE
                        &&& *final(de) == *de
                        &&& *final(out) == *out
                    },
                }
            },
            (Some(de), None) => code == Z_ENULL && *final(de) == *de,
            (None, Some(out)) => code == Z_ENULL && *final(out) == *out,
            (None, None) => code == Z_ENULL,
        },
{
    match (this_, len) {
        (Some(de), Some(out)) => match de.take_zint() {
            Some(v) => {
                if v <= usize::MAX as u64 {
                    *out = v as usize;
                    Z_OK
                } else {
                    Z_EDESERIALIZE
                }
            },
            None => Z_EDESERIALIZE,
        },
        _ => Z_ENULL,
    }
}

/// The string at the front of `unread`: its bytes, and how many bytes it takes
/// with its length. There is none where either ends too soon.
pub open spec fn string_at(unread: Seq<u8>) -> Option<(Seq<u8>, nat)> {
    match unvle(unread) {
        Some((n, used)) => if n <= usize::MAX && used + n <= unread.len() {
            Some((unread.subrange(used as int, (used + n) as int), used + n))
        } else {
            None
        },
        None => None,
    }
}

/// Deserializes a string into an owned one. Where it is cut short, the cursor
/// stays where it was and the string is a gravestone.
pub fn ze_deserializer_deserialize_string<'a, 'b>(
    this_: Option<&mut ze_deserializer_t<'a>>,
    str_: Option<&mut z_owned_string_t<'b>>,
) -> (code: ZResult)
    ensures
        match (this_, str_) {
            (Some(de), Some(out)) => {
                &&& de.wf() ==> final(de).wf()
                &&& match string_at(de.unread()) {
                    Some((bytes, used)) => {
                        &&& code == Z_OK
                        &&& *final(out) is Held
                        &&& final(out).bytes() == Some(bytes)
                        &&& final(de).moved_on(de, used)
                    },
                    None => {
                        &&& code == Z_EDESERIALIZE
                        &&& *final(out) is Null
                        &&& *final(de) == *de
                    },
                }
            },
            (Some(de), None) => code == Z_ENULL && *final(de) == *de,
            (None, Some(out)) => code == Z_ENULL && *final(out) == *out,
            (None, None) => code == Z_ENULL,
        },
{
    match (this_, str_) {
        (Some(de), Some(out)) => {
            *out = SliceRepr::Null;
            let ghost unread = de.unread();
            proof {
                lemma_unvle_bounds(unread);
            }
            let mut probe = ze_deserializer_t { payload: de.payload, pos: de.pos };
            let n: u64 = match probe.take_zint() {
                Some(n) => n,
                None => {
                    return Z_EDESERIALIZE;
                },
            };
            if n > usize::MAX as u64 {
                return Z_EDESERIALIZE;
            }
            let ghost used = (unvle(unread)->0).1;
            let ghost left = probe.unread();
            proof {
                assert(left =~= unread.skip(used as int));
            }
            match probe.take(n as usize) {
                Some(run) => {
                    proof {
                        assert(run@ =~= unread.subrange(used as int, used + n));
                    }
                    *out = owned_string_from(run);
                    de.pos = probe.pos;
                    Z_OK
                },
                None => Z_EDESERIALIZE,
            }
        },
        _ => Z_ENULL,
    }
}

/// Deserializes a `uint32` straight out of a payload, which has to be exactly
/// its four bytes.
pub fn ze_deserialize_uint32(this_: Option<&z_loaned_bytes_t>, dst: Option<&mut u32>) -> (code:
    ZResult)
    ensures
        match dst {
            None => code == Z_ENULL,
            Some(out) => match live(this_) {
                None => code == Z_ENULL && *final(out) == *out,
                Some(state) => if state.payload@.len() == 4 {
                    code == Z_OK && *final(out) == le_value(state.payload@)
                } else {
                    code == Z_EPARSE && *final(out) == *out
                },
            },
        },
{
    match (dst, this_) {
        (Some(out), Some(Owned { state: Some(state) })) => {
            if state.payload.len() != 4 {
                return Z_EPARSE;
            }
            proof {
                lemma_le_bytes_of_value(state.payload@);
                reveal_with_fuel(le_limit, 5);
                assert(state.payload@.subrange(0, 4) =~= state.payload@);
            }
            *out = decode_le(state.payload.as_slice(), 0, 4) as u32;
            Z_OK
        },
        _ => Z_ENULL,
    }
}

/// A string read back is the string that was written, and the reader stands
/// behind it.
pub proof fn lemma_string_round_trip(bytes: Seq<u8>, rest: Seq<u8>)
    requires
        bytes.len() <= usize::MAX,
    ensures
        string_at(prefixed(bytes) + rest) == Some((bytes, prefixed(bytes).len())),
{
    let head = vle(bytes.len() as u64);
    let unread = prefixed(bytes) + rest;
    lemma_vle_round_trip(bytes.len() as u64, bytes + rest);
    assert(unread =~= head + (bytes + rest));
    assert(unread.subrange(head.len() as int, (head.len() + bytes.len()) as int) =~= bytes);
}

/// The length of a sequence read back is the length that was written.
pub proof fn lemma_sequence_length_round_trip(len: usize, rest: Seq<u8>)
    ensures
        unvle(vle(len as u64) + rest) == Some((len as nat, vle(len as u64).len())),
{
    lemma_vle_round_trip(len as u64, rest);
}

/// A `uint32`, or the bit pattern of a `float`, read back is what was written.
pub proof fn lemma_uint32_round_trip(v: u32, rest: Seq<u8>)
    ensures
        le_value((le_bytes(v as nat, 4) + rest).take(4)) == v,
{
    lemma_u32_round_trip(v);
    assert((le_bytes(v as nat, 4) + rest).take(4) =~= le_bytes(v as nat, 4));
}

/// A `uint64` read back is what was written.
pub proof fn lemma_uint64_round_trip(v: u64, rest: Seq<u8>)
    ensures
        le_value((le_bytes(v as nat, 8) + rest).take(8)) == v,
{
    lemma_u64_round_trip(v);
    assert((le_bytes(v as nat, 8) + rest).take(8) =~= le_bytes(v as nat, 8));
}

/// An `int32` read back is what was written: the only one with its bytes.
pub proof fn lemma_int32_round_trip(v: i32, read: i32, rest: Seq<u8>)
    requires
        as_unsigned(read) == le_value((le_bytes(as_unsigned(v), 4) + rest).take(4)),
    ensures
        read == v,
{
    lemma_i32_round_trip(v);
    assert((le_bytes(as_unsigned(v), 4) + rest).take(4) =~= le_bytes(as_unsigned(v), 4));
}

/// A value that can be serialized.
pub enum Value {
    Uint32(u32),
    Uint64(u64),
    Int32(i32),
    /// By its bit pattern.
    Float(u32),
    SequenceLength(usize),
    Text(Seq<u8>),
}

impl Value {
    /// Whether the value has a length that can be held.
    pub open spec fn wf(self) -> bool {
        self matches Value::Text(bytes) ==> bytes.len() <= usize::MAX
    }

    /// The bytes that serializing the value appends.
    pub open spec fn bytes(self) -> Seq<u8> {
        match self {
            Value::Uint32(v) => le_bytes(v as nat, 4),
            Value::Uint64(v) => le_bytes(v as nat, 8),
            Value::Int32(v) => le_bytes(as_unsigned(v), 4),
            Value::Float(bits) => le_bytes(bits as nat, 4),
            Value::SequenceLength(n) => vle(n as u64),
            Value::Text(bytes) => prefixed(bytes),
        }
    }

    /// Whether deserializing a value of this kind from `unread` gives this value
    /// and takes `used` bytes.
    pub open spec fn is_read(self, unread: Seq<u8>, used: nat) -> bool {
        &&& used <= unread.len()
        &&& match self {
            Value::Uint32(v) => used == 4 && le_value(unread.take(4)) == v,
            Value::Uint64(v) => used == 8 && le_value(unread.take(8)) == v,
            Value::Int32(v) => used == 4 && le_value(unread.take(4)) == as_unsigned(v),
            Value::Float(bits) => used == 4 && le_value(unread.take(4)) == bits,
            Value::SequenceLength(n) => unvle(unread) == Some((n as nat, used)),
            Value::Text(bytes) => string_at(unread) == Some((bytes, used)),
        }
    }
}

/// The bytes that serializing values one after another gives.
pub open spec fn record_bytes(values: Seq<Value>) -> Seq<u8>
    decreases values.len(),
{
    if values.len() == 0 {
        Seq::empty()
    } else {
        record_bytes(values.drop_last()) + values.last().bytes()
    }
}

proof fn lemma_value_round_trip(value: Value, rest: Seq<u8>)
    requires
        value.wf(),
    ensures
        value.is_read(value.bytes() + rest, value.bytes().len()),
{
    match value {
        Value::Uint32(v) => {
            lemma_uint32_round_trip(v, rest);
            lemma_u32_round_trip(v);
        },
        Value::Uint64(v) => {
            lemma_uint64_round_trip(v, rest);
            lemma_u64_round_trip(v);
        },
        Value::Int32(v) => {
            lemma_i32_round_trip(v);
            assert((le_bytes(as_unsigned(v), 4) + rest).take(4) =~= le_bytes(as_unsigned(v), 4));
        },
        Value::Float(bits) => {
            lemma_uint32_round_trip(bits, rest);
            lemma_u32_round_trip(bits);
        },
        Value::SequenceLength(n) => {
            lemma_sequence_length_round_trip(n, rest);
        },
        Value::Text(bytes) => {
            lemma_string_round_trip(bytes, rest);
        },
    }
}

/// What is serialized one value after another is deserialized in the same order:
/// behind the first `i` values stands the next one, and behind the last nothing.
pub proof fn lemma_a_record_is_read_back(values: Seq<Value>, i: int)
    requires
        0 <= i < values.len(),
        forall|k: int| 0 <= k < values.len() ==> (#[trigger] values[k]).wf(),
    ensures
        ({
            let before = record_bytes(values.take(i)).len();
            let after = record_bytes(values.take(i + 1)).len();
            &&& before <= after <= record_bytes(values).len()
            &&& values[i].is_read(
                record_bytes(values).skip(before as int),
                (after - before) as nat,
            )
            &&& i + 1 == values.len() ==> after == record_bytes(values).len()
        }),
{
    let head = record_bytes(values.take(i));
    let mine = values[i].bytes();
    assert(values.take(i + 1).drop_last() =~= values.take(i));
    assert(values.take(i + 1).last() == values[i]);
    assert(record_bytes(values.take(i + 1)) == head + mine);
    let rest = record_bytes(values.skip(i + 1));
    lemma_record_splits(values, i + 1);
    assert(record_bytes(values).skip(head.len() as int) =~= mine + rest);
    lemma_value_round_trip(values[i], rest);
    if i + 1 == values.len() {
        assert(values.take(i + 1) =~= values);
    }
}

proof fn lemma_record_splits(values: Seq<Value>, n: int)
    requires
        0 <= n <= values.len(),
    ensures
        record_bytes(values) == record_bytes(values.take(n)) + record_bytes(values.skip(n)),
    decreases values.len(),
{
    if n == values.len() {
        assert(values.take(n) =~= values);
        assert(values.skip(n).len() == 0);
        assert(record_bytes(values) =~= record_bytes(values) + record_bytes(values.skip(n)));
    } else {
        let shorter = values.drop_last();
        lemma_record_splits(shorter, n);
        assert(shorter.take(n) =~= values.take(n));
        assert(shorter.skip(n) =~= values.skip(n).drop_last());
        assert(values.skip(n).last() == values.last());
        assert(record_bytes(values) =~= record_bytes(values.take(n)) + record_bytes(values.skip(n)));
    }
}

} // verus!
