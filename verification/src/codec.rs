//! The two number encodings of the wire.
//!
//! A fixed-width number is its bytes, least significant first. A length is a
//! variable-length number: groups of seven bits, least significant first, each
//! but the last marked by the top bit. Nine bytes hold any 64-bit length, as the
//! ninth carries eight bits and no mark.

use vstd::prelude::*;

verus! {

/// The most bytes a variable-length number takes.
pub const VLE_LEN: u8 = 9;

/// One more than the largest number that `room` bytes can hold.
pub open spec fn vle_limit(room: nat) -> nat
    decreases room,
{
    if room <= 1 {
        256
    } else {
        128 * vle_limit((room - 1) as nat)
    }
}

/// The bytes of a number, in at most `room` bytes.
pub open spec fn vle_in(v: nat, room: nat) -> Seq<u8>
    decreases room,
{
    if v < 128 || room <= 1 {
        seq![v as u8]
    } else {
        seq![(v % 128 + 128) as u8] + vle_in(v / 128, (room - 1) as nat)
    }
}

/// The number that at most `room` bytes encode, and how many bytes it takes.
/// There is none where the bytes end too soon.
pub open spec fn unvle_in(bytes: Seq<u8>, room: nat) -> Option<(nat, nat)>
    decreases room,
{
    if bytes.len() == 0 {
        None
    } else if bytes[0] < 128 || room <= 1 {
        Some((bytes[0] as nat, 1))
    } else {
        match unvle_in(bytes.skip(1), (room - 1) as nat) {
            Some((v, used)) => Some(((bytes[0] - 128 + 128 * v) as nat, used + 1)),
            None => None,
        }
    }
}

/// The variable-length bytes of a 64-bit number.
pub open spec fn vle(v: u64) -> Seq<u8> {
    vle_in(v as nat, VLE_LEN as nat)
}

/// The variable-length number at the front of `bytes`, and how many bytes it
/// takes.
pub open spec fn unvle(bytes: Seq<u8>) -> Option<(nat, nat)> {
    unvle_in(bytes, VLE_LEN as nat)
}

/// The `n` bytes of a number, least significant first.
pub open spec fn le_bytes(v: nat, n: nat) -> Seq<u8>
    decreases n,
{
    if n == 0 {
        Seq::empty()
    } else {
        seq![(v % 256) as u8] + le_bytes(v / 256, (n - 1) as nat)
    }
}

/// The number that bytes encode, least significant first.
pub open spec fn le_value(bytes: Seq<u8>) -> nat
    decreases bytes.len(),
{
    if bytes.len() == 0 {
        0
    } else {
        bytes[0] as nat + 256 * le_value(bytes.skip(1))
    }
}

/// 256 to the power of `n`.
pub open spec fn le_limit(n: nat) -> nat
    decreases n,
{
    if n == 0 {
        1
    } else {
        256 * le_limit((n - 1) as nat)
    }
}

/// A signed 32-bit number as an unsigned one, in two's complement.
pub open spec fn as_unsigned(v: i32) -> nat {
    if v < 0 {
        (v + 0x1_0000_0000) as nat
    } else {
        v as nat
    }
}

proof fn lemma_limits()
    ensures
        vle_limit(9) == 0x1_0000_0000_0000_0000,
        le_limit(4) == 0x1_0000_0000,
        le_limit(8) == 0x1_0000_0000_0000_0000,
{
    reveal_with_fuel(vle_limit, 10);
    reveal_with_fuel(le_limit, 9);
}

/// What is decoded is what was encoded, whatever follows it.
pub proof fn lemma_vle_round_trip(v: u64, rest: Seq<u8>)
    ensures
        unvle(vle(v) + rest) == Some((v as nat, vle(v).len())),
        1 <= vle(v).len() <= VLE_LEN,
{
    lemma_limits();
    lemma_vle_in_round_trip(v as nat, 9, rest);
}

proof fn lemma_vle_in_round_trip(v: nat, room: nat, rest: Seq<u8>)
    requires
        1 <= room,
        v < vle_limit(room),
    ensures
        unvle_in(vle_in(v, room) + rest, room) == Some((v, vle_in(v, room).len())),
        1 <= vle_in(v, room).len() <= room,
    decreases room,
{
    if v < 128 || room <= 1 {
    } else {
        let next = (room - 1) as nat;
        lemma_vle_in_round_trip(v / 128, next, rest);
        assert((vle_in(v, room) + rest).skip(1) =~= vle_in(v / 128, next) + rest);
    }
}

/// A number is at most nine bytes away and fits 64 bits.
pub proof fn lemma_unvle_bounds(bytes: Seq<u8>)
    ensures
        unvle(bytes) matches Some((v, used)) ==> v <= u64::MAX && 1 <= used <= bytes.len() && used
            <= VLE_LEN,
{
    lemma_limits();
    lemma_unvle_in_bounds(bytes, 9);
}

proof fn lemma_unvle_in_bounds(bytes: Seq<u8>, room: nat)
    requires
        1 <= room,
    ensures
        unvle_in(bytes, room) matches Some((v, used)) ==> v < vle_limit(room) && 1 <= used
            <= bytes.len() && used <= room,
    decreases room,
{
    if bytes.len() == 0 || bytes[0] < 128 || room <= 1 {
        if room > 1 {
            lemma_vle_limit_grows(room);
        }
    } else {
        lemma_unvle_in_bounds(bytes.skip(1), (room - 1) as nat);
    }
}

proof fn lemma_vle_limit_grows(room: nat)
    ensures
        256 <= vle_limit(room),
    decreases room,
{
    if room > 1 {
        lemma_vle_limit_grows((room - 1) as nat);
    }
}

/// What is decoded is what was encoded in `n` bytes.
pub proof fn lemma_le_round_trip(v: nat, n: nat)
    requires
        v < le_limit(n),
    ensures
        le_bytes(v, n).len() == n,
        le_value(le_bytes(v, n)) == v,
    decreases n,
{
    if n > 0 {
        let next = (n - 1) as nat;
        lemma_le_round_trip(v / 256, next);
        assert(le_bytes(v, n).skip(1) =~= le_bytes(v / 256, next));
    }
}

/// What is encoded is what was decoded.
pub proof fn lemma_le_bytes_of_value(bytes: Seq<u8>)
    ensures
        le_bytes(le_value(bytes), bytes.len()) == bytes,
        le_value(bytes) < le_limit(bytes.len()),
    decreases bytes.len(),
{
    if bytes.len() == 0 {
        assert(le_bytes(0, 0) =~= bytes);
    } else {
        let rest = bytes.skip(1);
        lemma_le_bytes_of_value(rest);
        let v = le_value(bytes);
        assert(v % 256 == bytes[0] && v / 256 == le_value(rest)) by (nonlinear_arith)
            requires
                v == bytes[0] as nat + 256 * le_value(rest),
                0 <= bytes[0] < 256,
        ;
        assert(bytes =~= seq![bytes[0]] + rest);
    }
}

fn encode_groups(out: &mut Vec<u8>, v: u64, room: u8)
    requires
        1 <= room <= VLE_LEN,
        v < vle_limit(room as nat),
    ensures
        final(out)@ == old(out)@ + vle_in(v as nat, room as nat),
    decreases room,
{
    if v < 128 || room == 1 {
        out.push(v as u8);
        proof {
            assert(out@ =~= old(out)@ + vle_in(v as nat, room as nat));
        }
    } else {
        out.push((v % 128 + 128) as u8);
        encode_groups(out, v / 128, room - 1);
        proof {
            assert(out@ =~= old(out)@ + vle_in(v as nat, room as nat));
        }
    }
}

/// Appends the variable-length bytes of a number.
pub fn encode_zint(out: &mut Vec<u8>, v: u64)
    ensures
        final(out)@ == old(out)@ + vle(v),
{
    proof {
        lemma_limits();
    }
    encode_groups(out, v, VLE_LEN)
}

fn decode_groups(bytes: &[u8], at: usize, room: u8) -> (r: Option<(u64, usize)>)
    requires
        1 <= room <= VLE_LEN,
        at <= bytes@.len(),
    ensures
        match r {
            Some((v, used)) => unvle_in(bytes@.skip(at as int), room as nat) == Some(
                (v as nat, used as nat),
            ),
            None => unvle_in(bytes@.skip(at as int), room as nat) is None,
        },
    decreases room,
{
    let ghost rest = bytes@.skip(at as int);
    if at >= bytes.len() {
        return None;
    }
    let first: u8 = bytes[at];
    if first < 128 || room == 1 {
        return Some((first as u64, 1));
    }
    proof {
        assert(rest.skip(1) =~= bytes@.skip(at + 1));
        lemma_unvle_in_bounds(rest, room as nat);
        lemma_limits();
        lemma_vle_limit_monotone(room as nat, 9);
    }
    match decode_groups(bytes, at + 1, room - 1) {
        Some((v, used)) => Some(((first - 128) as u64 + 128 * v, used + 1)),
        None => None,
    }
}

proof fn lemma_vle_limit_monotone(a: nat, b: nat)
    requires
        1 <= a <= b,
    ensures
        vle_limit(a) <= vle_limit(b),
    decreases b,
{
    if a < b {
        lemma_vle_limit_monotone(a, (b - 1) as nat);
        lemma_vle_limit_grows((b - 1) as nat);
    }
}

/// The variable-length number at `at`, and how many bytes it takes.
pub fn decode_zint(bytes: &[u8], at: usize) -> (r: Option<(u64, usize)>)
    requires
        at <= bytes@.len(),
    ensures
        match r {
            Some((v, used)) => unvle(bytes@.skip(at as int)) == Some((v as nat, used as nat)),
            None => unvle(bytes@.skip(at as int)) is None,
        },
{
    decode_groups(bytes, at, VLE_LEN)
}

/// Appends the `n` bytes of a number, least significant first.
pub fn encode_le(out: &mut Vec<u8>, v: u64, n: u8)
    ensures
        final(out)@ == old(out)@ + le_bytes(v as nat, n as nat),
    decreases n,
{
    if n > 0 {
        out.push((v % 256) as u8);
        encode_le(out, v / 256, n - 1);
    }
    proof {
        assert(out@ =~= old(out)@ + le_bytes(v as nat, n as nat));
    }
}

/// The number in the `n` bytes at `at`, least significant first.
pub fn decode_le(bytes: &[u8], at: usize, n: u8) -> (v: u64)
    requires
        n <= 8,
        at + n <= bytes@.len(),
    ensures
        v == le_value(bytes@.subrange(at as int, at + n)),
    decreases n,
{
    let ghost run = bytes@.subrange(at as int, at + n);
    let end: usize = bytes.len();
    if n == 0 {
        0
    } else {
        proof {
            assert(run.skip(1) =~= bytes@.subrange(at + 1, at + n));
            lemma_le_bytes_of_value(run);
            lemma_limits();
            lemma_le_limit_monotone(n as nat, 8);
            assert(at + 1 <= end);
        }
        let rest: u64 = decode_le(bytes, at + 1, n - 1);
        bytes[at] as u64 + 256 * rest
    }
}

proof fn lemma_le_limit_monotone(a: nat, b: nat)
    requires
        a <= b,
    ensures
        1 <= le_limit(a) <= le_limit(b),
    decreases b,
{
    if a < b {
        lemma_le_limit_monotone(a, (b - 1) as nat);
    } else if b > 0 {
        lemma_le_limit_monotone((b - 1) as nat, (b - 1) as nat);
    }
}

/// A 32-bit number survives its bytes.
pub proof fn lemma_u32_round_trip(v: u32)
    ensures
        le_bytes(v as nat, 4).len() == 4,
        le_value(le_bytes(v as nat, 4)) == v,
{
    lemma_limits();
    lemma_le_round_trip(v as nat, 4);
}

/// A 64-bit number survives its bytes.
pub proof fn lemma_u64_round_trip(v: u64)
    ensures
        le_bytes(v as nat, 8).len() == 8,
        le_value(le_bytes(v as nat, 8)) == v,
{
    lemma_limits();
    lemma_le_round_trip(v as nat, 8);
}

/// A signed 32-bit number survives its bytes.
pub proof fn lemma_i32_round_trip(v: i32)
    ensures
        le_bytes(as_unsigned(v), 4).len() == 4,
        le_value(le_bytes(as_unsigned(v), 4)) == as_unsigned(v),
{
    lemma_limits();
    lemma_le_round_trip(as_unsigned(v), 4);
}

} // verus!
