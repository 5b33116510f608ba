//! Laws of the wire format.
//!
//! A number is told by its bytes one by one: the first weighs one, and each other
//! byte weighs as often what the one before it does.

use vstd::arithmetic::div_mod::lemma_div_denominator;
use vstd::arithmetic::power::lemma_pow0;
use vstd::arithmetic::power::lemma_pow_positive;
use vstd::arithmetic::power::pow;
use vstd::prelude::*;

use crate::bytes::z_loaned_bytes_t;
use crate::bytes::z_owned_bytes_t;
use crate::codec::as_unsigned;
use crate::codec::le_bytes;
use crate::codec::le_value;
use crate::codec::lemma_unvle_bounds;
use crate::codec::unvle;
use crate::codec::unvle_in;
use crate::codec::vle;
use crate::codec::vle_in;
use crate::codec::vle_limit;
use crate::result::ZResult;
use crate::serde::ze_deserialize_uint32;
use crate::serde::ze_deserializer_deserialize_float;
use crate::serde::ze_deserializer_deserialize_int32;
use crate::serde::ze_deserializer_deserialize_sequence_length;
use crate::serde::ze_deserializer_deserialize_string;
use crate::serde::ze_deserializer_deserialize_uint32;
use crate::serde::ze_deserializer_deserialize_uint64;
use crate::serde::ze_deserializer_from_bytes;
use crate::serde::ze_deserializer_t;
use crate::serde::ze_loaned_serializer_t;
use crate::serde::ze_moved_serializer_t;
use crate::serde::ze_owned_serializer_t;
use crate::serde::ze_serialize_uint32;
use crate::serde::ze_serializer_empty;
use crate::serde::ze_serializer_finish;
use crate::serde::ze_serializer_serialize_float;
use crate::serde::ze_serializer_serialize_int32;
use crate::serde::ze_serializer_serialize_sequence_length;
use crate::serde::ze_serializer_serialize_str;
use crate::serde::ze_serializer_serialize_string;
use crate::serde::ze_serializer_serialize_uint32;
use crate::serde::ze_serializer_serialize_uint64;
use crate::slice::SliceRepr;

verus! {

proof fn lemma_four_bytes(v: nat)
    requires
        v < 0x1_0000_0000,
    ensures
        le_bytes(v, 4).len() == 4,
        v == le_bytes(v, 4)[0] + 0x100 * le_bytes(v, 4)[1] + 0x1_0000 * le_bytes(v, 4)[2]
            + 0x100_0000 * le_bytes(v, 4)[3],
{
    reveal_with_fuel(le_bytes, 5);
}

proof fn lemma_eight_bytes(v: nat)
    requires
        v < 0x1_0000_0000_0000_0000,
    ensures
        le_bytes(v, 8).len() == 8,
        v == le_bytes(v, 8)[0] + 0x100 * le_bytes(v, 8)[1] + 0x1_0000 * le_bytes(v, 8)[2]
            + 0x100_0000 * le_bytes(v, 8)[3] + 0x1_0000_0000 * le_bytes(v, 8)[4]
            + 0x100_0000_0000 * le_bytes(v, 8)[5] + 0x1_0000_0000_0000 * le_bytes(v, 8)[6]
            + 0x100_0000_0000_0000 * le_bytes(v, 8)[7],
{
    reveal_with_fuel(le_bytes, 9);
}

proof fn lemma_value_of_four(b: Seq<u8>)
    requires
        b.len() == 4,
    ensures
        le_value(b) == b[0] + 0x100 * b[1] + 0x1_0000 * b[2] + 0x100_0000 * b[3],
{
    reveal_with_fuel(le_value, 5);
}

proof fn lemma_value_of_eight(b: Seq<u8>)
    requires
        b.len() == 8,
    ensures
        le_value(b) == b[0] + 0x100 * b[1] + 0x1_0000 * b[2] + 0x100_0000 * b[3] + 0x1_0000_0000
            * b[4] + 0x100_0000_0000 * b[5] + 0x1_0000_0000_0000 * b[6] + 0x100_0000_0000_0000
            * b[7],
{
    reveal_with_fuel(le_value, 9);
}

/// A `uint32` is written behind what was there as four bytes, least significant
/// first: weighed by their places they are the number. So is the bit pattern of a
/// `float`. Writing to a dead serializer changes nothing.
pub proof fn lemma_a_uint32_is_written_as_its_bytes(
    slot: &mut ze_loaned_serializer_t,
    val: u32,
    code: ZResult,
    other: &mut ze_loaned_serializer_t,
    bits: u32,
    float_code: ZResult,
)
    requires
        call_ensures(ze_serializer_serialize_uint32, (Some(slot), val), code),
        call_ensures(ze_serializer_serialize_float, (Some(other), bits), float_code),
    ensures
        code == (if old(slot).state is Some {
            0i8
        } else {
            -5i8
        }),
        final(slot).state is Some == old(slot).state is Some,
        old(slot).state is Some ==> {
            let before = old(slot).state->0.buf@;
            let after = final(slot).state->0.buf@;
            let n = before.len() as int;
            &&& after.len() == n + 4
            &&& after.take(n) == before
            &&& after[n] + 0x100 * after[n + 1] + 0x1_0000 * after[n + 2] + 0x100_0000 * after[n
                + 3] == val
        },
        float_code == (if old(other).state is Some {
            0i8
        } else {
            -5i8
        }),
        final(other).state is Some == old(other).state is Some,
        old(other).state is Some ==> {
            let before = old(other).state->0.buf@;
            let after = final(other).state->0.buf@;
            let n = before.len() as int;
            &&& after.len() == n + 4
            &&& after.take(n) == before
            &&& after[n] + 0x100 * after[n + 1] + 0x1_0000 * after[n + 2] + 0x100_0000 * after[n
                + 3] == bits
        },
{
    lemma_four_bytes(val as nat);
    lemma_four_bytes(bits as nat);
    if old(slot).state is Some {
        let before = old(slot).state->0.buf@;
        assert(final(slot).state->0.buf@.take(before.len() as int) =~= before);
    }
    if old(other).state is Some {
        let before = old(other).state->0.buf@;
        assert(final(other).state->0.buf@.take(before.len() as int) =~= before);
    }
}

/// An `int32` is written as the four bytes of a number that differs from it by a
/// multiple of two to the thirty-second: a number that is not negative has the
/// bytes of the `uint32` of the same value.
pub proof fn lemma_an_int32_is_written_in_twos_complement(
    slot: &mut ze_loaned_serializer_t,
    val: i32,
    code: ZResult,
)
    requires
        call_ensures(ze_serializer_serialize_int32, (Some(slot), val), code),
    ensures
        code == (if old(slot).state is Some {
            0i8
        } else {
            -5i8
        }),
        final(slot).state is Some == old(slot).state is Some,
        old(slot).state is Some ==> {
            let before = old(slot).state->0.buf@;
            let after = final(slot).state->0.buf@;
            let n = before.len() as int;
            let number = after[n] + 0x100 * after[n + 1] + 0x1_0000 * after[n + 2] + 0x100_0000
                * after[n + 3];
            &&& after.len() == n + 4
            &&& after.take(n) == before
            &&& (number - val) % 0x1_0000_0000 == 0
            &&& val >= 0 ==> number == val
        },
{
    lemma_four_bytes(as_unsigned(val));
    if old(slot).state is Some {
        let before = old(slot).state->0.buf@;
        assert(final(slot).state->0.buf@.take(before.len() as int) =~= before);
    }
}

/// A `uint64` is written as eight bytes, least significant first.
pub proof fn lemma_a_uint64_is_written_as_its_bytes(
    slot: &mut ze_loaned_serializer_t,
    val: u64,
    code: ZResult,
)
    requires
        call_ensures(ze_serializer_serialize_uint64, (Some(slot), val), code),
    ensures
        code == (if old(slot).state is Some {
            0i8
        } else {
            -5i8
        }),
        final(slot).state is Some == old(slot).state is Some,
        old(slot).state is Some ==> {
            let before = old(slot).state->0.buf@;
            let after = final(slot).state->0.buf@;
            let n = before.len() as int;
            &&& after.len() == n + 8
            &&& after.take(n) == before
            &&& after[n] + 0x100 * after[n + 1] + 0x1_0000 * after[n + 2] + 0x100_0000 * after[n
                + 3] + 0x1_0000_0000 * after[n + 4] + 0x100_0000_0000 * after[n + 5]
                + 0x1_0000_0000_0000 * after[n + 6] + 0x100_0000_0000_0000 * after[n + 7] == val
        },
{
    lemma_eight_bytes(val as nat);
    if old(slot).state is Some {
        let before = old(slot).state->0.buf@;
        assert(final(slot).state->0.buf@.take(before.len() as int) =~= before);
    }
}

/// A payload of a single `uint32` is its four bytes, and reading it back takes
/// exactly four bytes.
pub proof fn lemma_a_single_uint32_is_its_bytes(
    slot: &mut z_owned_bytes_t,
    val: u32,
    code: ZResult,
    payload: z_loaned_bytes_t,
    dst: &mut u32,
    read: ZResult,
)
    requires
        call_ensures(ze_serialize_uint32, (Some(slot), val), code),
        call_ensures(ze_deserialize_uint32, (Some(&payload), Some(dst)), read),
    ensures
        code == 0,
        final(slot).state is Some,
        final(slot).state->0.payload@.len() == 4,
        final(slot).state->0.payload@[0] + 0x100 * final(slot).state->0.payload@[1] + 0x1_0000
            * final(slot).state->0.payload@[2] + 0x100_0000 * final(slot).state->0.payload@[3]
            == val,
        payload.state is None ==> read == -5,
        payload.state is Some && payload.state->0.payload@.len() != 4 ==> read == -2,
        payload.state is Some && payload.state->0.payload@.len() == 4 ==> {
            let b = payload.state->0.payload@;
            &&& read == 0
            &&& *final(dst) == b[0] + 0x100 * b[1] + 0x1_0000 * b[2] + 0x100_0000 * b[3]
        },
        read != 0 ==> *final(dst) == *old(dst),
{
    lemma_four_bytes(val as nat);
    if payload.state is Some && payload.state->0.payload@.len() == 4 {
        lemma_value_of_four(payload.state->0.payload@);
    }
}

/// A `uint32` is read from the next four bytes, least significant first, and the
/// cursor moves behind them. So is the bit pattern of a `float`. Where fewer are
/// left nothing changes.
pub proof fn lemma_a_uint32_is_read_from_its_bytes<'a>(
    de: &mut ze_deserializer_t<'a>,
    dst: &mut u32,
    code: ZResult,
    float_de: &mut ze_deserializer_t<'a>,
    bits: &mut u32,
    float_code: ZResult,
)
    requires
        call_ensures(ze_deserializer_deserialize_uint32, (Some(de), Some(dst)), code),
        call_ensures(ze_deserializer_deserialize_float, (Some(float_de), Some(bits)), float_code),
    ensures
        final(de).payload == old(de).payload,
        old(de).pos + 4 <= old(de).payload@.len() ==> {
            let b = old(de).payload@;
            let p = old(de).pos as int;
            &&& code == 0
            &&& final(de).pos == p + 4
            &&& *final(dst) == b[p] + 0x100 * b[p + 1] + 0x1_0000 * b[p + 2] + 0x100_0000 * b[p + 3]
        },
        old(de).pos + 4 > old(de).payload@.len() ==> code == -7 && *final(de) == *old(de)
            && *final(dst) == *old(dst),
        final(float_de).payload == old(float_de).payload,
        old(float_de).pos + 4 <= old(float_de).payload@.len() ==> {
            let b = old(float_de).payload@;
            let p = old(float_de).pos as int;
            &&& float_code == 0
            &&& final(float_de).pos == p + 4
            &&& *final(bits) == b[p] + 0x100 * b[p + 1] + 0x1_0000 * b[p + 2] + 0x100_0000 * b[p
                + 3]
        },
        old(float_de).pos + 4 > old(float_de).payload@.len() ==> float_code == -7 && *final(float_de) == *old(float_de) && *final(bits) == *old(bits),
{
    if old(de).pos + 4 <= old(de).payload@.len() {
        lemma_value_of_four(old(de).unread().take(4));
    }
    if old(float_de).pos + 4 <= old(float_de).payload@.len() {
        lemma_value_of_four(old(float_de).unread().take(4));
    }
}

/// An `int32` is read from the next four bytes: it differs from the number they are
/// by a multiple of two to the thirty-second.
pub proof fn lemma_an_int32_is_read_in_twos_complement<'a>(
    de: &mut ze_deserializer_t<'a>,
    dst: &mut i32,
    code: ZResult,
)
    requires
        call_ensures(ze_deserializer_deserialize_int32, (Some(de), Some(dst)), code),
    ensures
        final(de).payload == old(de).payload,
        old(de).pos + 4 <= old(de).payload@.len() ==> {
            let b = old(de).payload@;
            let p = old(de).pos as int;
            let number = b[p] + 0x100 * b[p + 1] + 0x1_0000 * b[p + 2] + 0x100_0000 * b[p + 3];
            &&& code == 0
            &&& final(de).pos == p + 4
            &&& (number - *final(dst)) % 0x1_0000_0000 == 0
            &&& number < 0x8000_0000 ==> *final(dst) == number
        },
        old(de).pos + 4 > old(de).payload@.len() ==> code == -7 && *final(de) == *old(de)
            && *final(dst) == *old(dst),
{
    if old(de).pos + 4 <= old(de).payload@.len() {
        lemma_value_of_four(old(de).unread().take(4));
    }
}

/// A `uint64` is read from the next eight bytes, least significant first.
pub proof fn lemma_a_uint64_is_read_from_its_bytes<'a>(
    de: &mut ze_deserializer_t<'a>,
    dst: &mut u64,
    code: ZResult,
)
    requires
        call_ensures(ze_deserializer_deserialize_uint64, (Some(de), Some(dst)), code),
    ensures
        final(de).payload == old(de).payload,
        old(de).pos + 8 <= old(de).payload@.len() ==> {
            let b = old(de).payload@;
            let p = old(de).pos as int;
            &&& code == 0
            &&& final(de).pos == p + 8
            &&& *final(dst) == b[p] + 0x100 * b[p + 1] + 0x1_0000 * b[p + 2] + 0x100_0000 * b[p + 3]
                + 0x1_0000_0000 * b[p + 4] + 0x100_0000_0000 * b[p + 5] + 0x1_0000_0000_0000 * b[p
                + 6] + 0x100_0000_0000_0000 * b[p + 7]
        },
        old(de).pos + 8 > old(de).payload@.len() ==> code == -7 && *final(de) == *old(de)
            && *final(dst) == *old(dst),
{
    if old(de).pos + 8 <= old(de).payload@.len() {
        lemma_value_of_eight(old(de).unread().take(8));
    }
}

proof fn lemma_vle_in_groups(v: nat, room: nat)
    requires
        1 <= room,
        v < vle_limit(room),
    ensures
        ({
            let b = vle_in(v, room);
            &&& 1 <= b.len() <= room
            &&& forall|k: int|
                0 <= k < b.len() - 1 ==> #[trigger] b[k] == 128 + (v as int / pow(128, k as nat))
                    % 128
            &&& b.last() == v as int / pow(128, (b.len() - 1) as nat)
            &&& b.len() > 1 ==> b.last() > 0
            &&& b.len() < room ==> b.last() < 128
        }),
    decreases room,
{
    lemma_pow0(128);
    if v < 128 || room <= 1 {
    } else {
        let next = (room - 1) as nat;
        lemma_vle_in_groups(v / 128, next);
        let b = vle_in(v, room);
        let tail = vle_in(v / 128, next);
        assert(b.skip(1) =~= tail);
        assert forall|k: int| 0 <= k < b.len() - 1 implies #[trigger] b[k] == 128 + (v as int / pow(
            128,
            k as nat,
        )) % 128 by {
            if k > 0 {
                assert(b[k] == tail[k - 1]);
                lemma_deeper(v as int, (k - 1) as nat);
            }
        }
        lemma_deeper(v as int, (tail.len() - 1) as nat);
    }
}

proof fn lemma_deeper(v: int, k: nat)
    requires
        v >= 0,
    ensures
        (v / 128) / pow(128, k) == v / pow(128, k + 1),
        pow(128, k) > 0,
{
    lemma_pow_positive(128, k);
    lemma_div_denominator(v, 128, pow(128, k));
    reveal(pow);
    assert(pow(128, k + 1) == 128 * pow(128, k));
}

proof fn lemma_unvle_in_groups(b: Seq<u8>, room: nat)
    requires
        1 <= room,
    ensures
        match unvle_in(b, room) {
            Some((v, used)) => {
                &&& 1 <= used <= room
                &&& used <= b.len()
                &&& forall|k: int|
                    0 <= k < used - 1 ==> #[trigger] b[k] == 128 + (v as int / pow(128, k as nat))
                        % 128
                &&& b[used - 1] == v as int / pow(128, (used - 1) as nat)
                &&& used < room ==> b[used - 1] < 128
            },
            None => b.len() < room && forall|k: int| 0 <= k < b.len() ==> #[trigger] b[k] >= 128,
        },
    decreases room,
{
    lemma_pow0(128);
    if b.len() == 0 || b[0] < 128 || room <= 1 {
    } else {
        let next = (room - 1) as nat;
        let tail = b.skip(1);
        lemma_unvle_in_groups(tail, next);
        match unvle_in(tail, next) {
            Some((w, taken)) => {
                let v = (b[0] - 128 + 128 * w) as int;
                assert(v / 128 == w);
                assert forall|k: int| 0 <= k < taken implies #[trigger] b[k] == 128 + (v / pow(
                    128,
                    k as nat,
                )) % 128 by {
                    if k > 0 {
                        assert(b[k] == tail[k - 1]);
                        lemma_deeper(v, (k - 1) as nat);
                    }
                }
                assert(b[taken as int] == tail[taken - 1]);
                lemma_deeper(v, (taken - 1) as nat);
            },
            None => {
                assert forall|k: int| 0 <= k < b.len() implies #[trigger] b[k] >= 128 by {
                    if k > 0 {
                        assert(b[k] == tail[k - 1]);
                    }
                }
            },
        }
    }
}

proof fn lemma_nine_are_enough(v: u64)
    ensures
        v < vle_limit(9),
{
    reveal_with_fuel(vle_limit, 10);
}

/// A length is written in groups of seven bits, least significant first, each but
/// the last marked by the top bit, in no more bytes than it takes and never more
/// than nine.
pub proof fn lemma_a_length_is_written_in_groups(
    slot: &mut ze_loaned_serializer_t,
    len: usize,
    code: ZResult,
)
    requires
        call_ensures(ze_serializer_serialize_sequence_length, (Some(slot), len), code),
    ensures
        code == (if old(slot).state is Some {
            0i8
        } else {
            -5i8
        }),
        final(slot).state is Some == old(slot).state is Some,
        old(slot).state is Some ==> {
            let before = old(slot).state->0.buf@;
            let after = final(slot).state->0.buf@;
            let b = after.skip(before.len() as int);
            &&& after.take(before.len() as int) == before
            &&& 1 <= b.len() <= 9
            &&& forall|k: int|
                0 <= k < b.len() - 1 ==> #[trigger] b[k] == 128 + (len as int / pow(128, k as nat))
                    % 128
            &&& b.last() == len as int / pow(128, (b.len() - 1) as nat)
            &&& b.len() > 1 ==> b.last() > 0
            &&& b.len() < 9 ==> b.last() < 128
        },
{
    lemma_nine_are_enough(len as u64);
    lemma_vle_in_groups(len as nat, 9);
    if old(slot).state is Some {
        let before = old(slot).state->0.buf@;
        let after = final(slot).state->0.buf@;
        assert(after.take(before.len() as int) =~= before);
        assert(after.skip(before.len() as int) =~= vle(len as u64));
    }
}

/// A length is read from its groups: every byte but the last is marked and holds
/// its seven bits of the length. Where the groups end too soon the cursor stays,
/// and it is never read beyond nine bytes.
pub proof fn lemma_a_length_is_read_from_its_groups<'a>(
    de: &mut ze_deserializer_t<'a>,
    len: &mut usize,
    code: ZResult,
)
    requires
        old(de).pos <= old(de).payload@.len(),
        call_ensures(ze_deserializer_deserialize_sequence_length, (Some(de), Some(len)), code),
    ensures
        final(de).payload == old(de).payload,
        code == 0 || code == -7,
        code != 0 ==> *final(len) == *old(len),
        code == 0 ==> {
            let b = old(de).payload@.skip(old(de).pos as int);
            let used = final(de).pos - old(de).pos;
            &&& 1 <= used <= 9
            &&& used <= b.len()
            &&& forall|k: int|
                0 <= k < used - 1 ==> #[trigger] b[k] == 128 + (*final(len) as int / pow(
                    128,
                    k as nat,
                )) % 128
            &&& b[used - 1] == *final(len) as int / pow(128, (used - 1) as nat)
            &&& used < 9 ==> b[used - 1] < 128
        },
        code != 0 && usize::MAX == u64::MAX ==> {
            let b = old(de).payload@.skip(old(de).pos as int);
            &&& *final(de) == *old(de)
            &&& b.len() < 9
            &&& forall|k: int| 0 <= k < b.len() ==> #[trigger] b[k] >= 128
        },
{
    let b = old(de).payload@.skip(old(de).pos as int);
    assert(b =~= old(de).unread());
    lemma_unvle_in_groups(b, 9);
    lemma_unvle_bounds(b);
}

/// A string is written as its length is written, followed by its bytes. A dead
/// string is an empty one.
pub proof fn lemma_a_string_is_its_length_and_its_bytes(
    slot: &mut ze_loaned_serializer_t,
    bytes: &[u8],
    code: ZResult,
    view: &mut ze_loaned_serializer_t,
    string: SliceRepr,
    view_code: ZResult,
    counted: &mut ze_loaned_serializer_t,
    counted_code: ZResult,
)
    requires
        call_ensures(ze_serializer_serialize_str, (Some(slot), Some(bytes)), code),
        call_ensures(ze_serializer_serialize_string, (Some(view), Some(&string)), view_code),
        old(slot).state is Some,
        old(view).state is Some,
        old(counted).state is Some,
        old(counted).state->0.buf@ == old(slot).state->0.buf@,
        old(view).state->0.buf@ == old(slot).state->0.buf@,
        string is Null ==> bytes@.len() == 0,
        string is Held ==> string->Held_0@ == bytes@,
        string is Viewed ==> string->Viewed_0@ == bytes@,
        call_ensures(
            ze_serializer_serialize_sequence_length,
            (Some(counted), bytes@.len() as usize),
            counted_code,
        ),
        bytes@.len() <= usize::MAX,
    ensures
        code == 0 && view_code == 0,
        final(slot).state is Some && final(view).state is Some,
        final(slot).state->0.buf@ == final(counted).state->0.buf@ + bytes@,
        final(view).state->0.buf@ == final(counted).state->0.buf@ + bytes@,
{
    if string is Null {
        assert(bytes@ =~= Seq::<u8>::empty());
    }
    assert(final(slot).state->0.buf@ =~= final(counted).state->0.buf@ + bytes@);
    assert(final(view).state->0.buf@ =~= final(counted).state->0.buf@ + bytes@);
}

/// A string is read as its length is read, followed by as many bytes. Where either
/// ends too soon the cursor stays and there is no string.
pub proof fn lemma_a_string_is_read_by_its_length<'a, 'b>(
    de: &mut ze_deserializer_t<'a>,
    out: &mut SliceRepr<'b>,
    code: ZResult,
    counted: &mut ze_deserializer_t<'a>,
    len: &mut usize,
    counted_code: ZResult,
)
    requires
        old(de).pos <= old(de).payload@.len(),
        *old(counted) == *old(de),
        call_ensures(ze_deserializer_deserialize_string, (Some(de), Some(out)), code),
        call_ensures(
            ze_deserializer_deserialize_sequence_length,
            (Some(counted), Some(len)),
            counted_code,
        ),
    ensures
        code == 0 || code == -7,
        code == 0 <==> counted_code == 0 && final(counted).pos + *final(len) <= old(de).payload@.len(),
        code == 0 ==> {
            &&& *final(out) is Held
            &&& final(out)->Held_0@ == old(de).payload@.subrange(
                final(counted).pos as int,
                final(counted).pos + *final(len),
            )
            &&& final(de).pos == final(counted).pos + *final(len)
            &&& final(de).payload == old(de).payload
        },
        code != 0 ==> *final(out) is Null && *final(de) == *old(de),
{
    let b = old(de).unread();
    lemma_unvle_bounds(b);
    if code == 0 {
        let used = (unvle(b)->0).1;
        assert(b.subrange(used as int, (used + (unvle(b)->0).0) as int) =~= old(de).payload@.subrange(final(counted).pos as int, final(counted).pos + *final(len)));
    }
}

/// A serializer starts empty, finishing it hands over exactly what was written, and
/// a deserializer starts at the front of what it is given.
pub proof fn lemma_a_payload_is_what_was_written<'a>(
    fresh: &mut ze_owned_serializer_t,
    code: ZResult,
    moved: &mut ze_moved_serializer_t,
    slot: &mut z_owned_bytes_t,
    payload: &'a z_loaned_bytes_t,
    de: ze_deserializer_t<'a>,
)
    requires
        call_ensures(ze_serializer_empty, (Some(fresh),), code),
        call_ensures(ze_serializer_finish, (Some(moved), Some(slot)), ()),
        call_ensures(ze_deserializer_from_bytes, (Some(payload),), de),
    ensures
        code == 0,
        final(fresh).state is Some && final(fresh).state->0.buf@.len() == 0,
        final(moved)._this.state is None,
        final(slot).state is Some == old(moved)._this.state is Some,
        old(moved)._this.state is Some ==> final(slot).state->0.payload@
            == old(moved)._this.state->0.buf@,
        de.pos == 0,
        payload.state is Some ==> de.payload@ == payload.state->0.payload@,
        payload.state is None ==> de.payload@.len() == 0,
{
}

/// Taking bytes off a cursor gives the next ones, as many as were asked for, and
/// moves behind them, or gives none and moves nowhere.
pub proof fn lemma_a_cursor_gives_the_next_bytes<'a>(
    de: &mut ze_deserializer_t<'a>,
    n: usize,
    run: Option<&'a [u8]>,
)
    requires
        old(de).pos <= old(de).payload@.len(),
        call_ensures(ze_deserializer_t::<'a>::take, (de, n), run),
    ensures
        run is Some <==> old(de).pos + n <= old(de).payload@.len(),
        run is Some ==> run->0@ == old(de).payload@.subrange(old(de).pos as int, old(de).pos + n)
            && final(de).pos == old(de).pos + n && final(de).payload == old(de).payload,
        run is None ==> *final(de) == *old(de),
{
    if run is Some {
        assert(run->0@ =~= old(de).payload@.subrange(old(de).pos as int, old(de).pos + n));
    }
}

} // verus!
