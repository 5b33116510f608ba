//! Laws of clocks, time as text and random bytes.

use vstd::prelude::*;

use crate::codec::le_bytes;
use crate::codec::le_value;
use crate::platform::clamp_micros;
use crate::platform::clock_answers;
use crate::platform::clock_bits;
use crate::platform::decimal;
use crate::platform::elapsed_micros;
use crate::platform::elapsed_nanos;
use crate::platform::fill_stream;
use crate::platform::is_stream;
use crate::platform::mixed;
use crate::platform::padded;
use crate::platform::render_time;
use crate::platform::stream_state;
use crate::platform::time_text;
use crate::platform::wall_clock_shows;
use crate::platform::write_time;
use crate::platform::z_clock_elapsed_ms;
use crate::platform::z_clock_elapsed_s;
use crate::platform::z_clock_elapsed_us;
use crate::platform::z_clock_now;
use crate::platform::z_clock_t;
use crate::platform::z_random_fill;
use crate::platform::z_random_u16;
use crate::platform::z_random_u32;
use crate::platform::z_random_u64;
use crate::platform::z_random_u8;
use crate::platform::z_time_elapsed_ms;
use crate::platform::z_time_elapsed_s;
use crate::platform::z_time_elapsed_us;
use crate::platform::z_time_now;
use crate::platform::z_time_now_as_str;
use crate::platform::z_time_t;
use crate::platform::MonotonicBase;

verus! {

/// What has elapsed between a point and a reading is their difference, and nothing
/// where the point comes later or there is none.
pub proof fn lemma_what_has_elapsed_is_the_difference(
    point: Option<&z_clock_t>,
    now: u64,
    nanos: u64,
    instant: Option<&z_time_t>,
    micros: u64,
)
    requires
        call_ensures(elapsed_nanos, (point, now), nanos),
        call_ensures(elapsed_micros, (instant, now), micros),
    ensures
        point is None ==> nanos == 0,
        point is Some && point->0.t <= now ==> point->0.t + nanos == now,
        point is Some && point->0.t > now ==> nanos == 0,
        instant is None ==> micros == 0,
        instant is Some && instant->0.t <= now ==> instant->0.t + micros == now,
        instant is Some && instant->0.t > now ==> micros == 0,
{
}

/// A reading of the monotonic clock is what the clock answers, as far as 64 bits go.
/// What has elapsed is measured against such a reading in whole units: a thousand
/// nanoseconds, a thousand of those, and a thousand of those again.
pub proof fn lemma_an_interval_is_measured_in_whole_units(
    base: MonotonicBase,
    time: Option<&z_clock_t>,
    now: z_clock_t,
    us: u64,
    ms: u64,
    s: u64,
)
    requires
        call_ensures(z_clock_now, (&base,), now),
        call_ensures(z_clock_elapsed_us, (&base, time), us),
        call_ensures(z_clock_elapsed_ms, (&base, time), ms),
        call_ensures(z_clock_elapsed_s, (&base, time), s),
    ensures
        exists|n: u128| #[trigger]
            clock_answers(base.start, n) && (n - now.t) % 0x1_0000_0000_0000_0000 == 0,
        time is None ==> us == 0 && ms == 0 && s == 0,
        time matches Some(t) ==> {
            &&& exists|n: u128|
                {
                    let r = n as int % 0x1_0000_0000_0000_0000;
                    &&& #[trigger] clock_answers(base.start, n)
                    &&& r < t.t ==> us == 0
                    &&& r >= t.t ==> us * 1_000 <= r - t.t < (us + 1) * 1_000
                }
            &&& exists|n: u128|
                {
                    let r = n as int % 0x1_0000_0000_0000_0000;
                    &&& #[trigger] clock_answers(base.start, n)
                    &&& r < t.t ==> ms == 0
                    &&& r >= t.t ==> ms * 1_000_000 <= r - t.t < (ms + 1) * 1_000_000
                }
            &&& exists|n: u128|
                {
                    let r = n as int % 0x1_0000_0000_0000_0000;
                    &&& #[trigger] clock_answers(base.start, n)
                    &&& r < t.t ==> s == 0
                    &&& r >= t.t ==> s * 1_000_000_000 <= r - t.t < (s + 1) * 1_000_000_000
                }
        },
{
    let n = choose|n: u128| #[trigger]
        clock_answers(base.start, n) && now.t == n as int % 0x1_0000_0000_0000_0000;
    assert((n - now.t) % 0x1_0000_0000_0000_0000 == 0);
}

/// The wall clock is read in microseconds: the most that 64 bits hold where it shows
/// more, and zero where it is set before the epoch. What has elapsed is measured
/// against such a reading in whole units.
pub proof fn lemma_the_wall_clock_is_measured_in_whole_units(
    time: Option<&z_time_t>,
    now: z_time_t,
    us: u64,
    ms: u64,
    s: u64,
)
    requires
        call_ensures(z_time_now, (), now),
        call_ensures(z_time_elapsed_us, (time,), us),
        call_ensures(z_time_elapsed_ms, (time,), ms),
        call_ensures(z_time_elapsed_s, (time,), s),
    ensures
        exists|m: Option<u128>|
            {
                &&& #[trigger] wall_clock_shows(m)
                &&& m is None ==> now.t == 0
                &&& m is Some && m->0 <= 0xffff_ffff_ffff_ffff ==> now.t == m->0
                &&& m is Some && m->0 > 0xffff_ffff_ffff_ffff ==> now.t == 0xffff_ffff_ffff_ffff
            },
        time is None ==> us == 0 && ms == 0 && s == 0,
        time matches Some(t) ==> {
            &&& exists|m: Option<u128>|
                {
                    &&& #[trigger] wall_clock_shows(m)
                    &&& m is Some && t.t <= m->0 <= 0xffff_ffff_ffff_ffff ==> us == m->0 - t.t
                    &&& m is None || m->0 < t.t ==> us == 0
                }
            &&& exists|m: Option<u128>|
                {
                    &&& #[trigger] wall_clock_shows(m)
                    &&& m is Some && t.t <= m->0 <= 0xffff_ffff_ffff_ffff ==> ms * 1_000 <= m->0
                        - t.t < (ms + 1) * 1_000
                    &&& m is None || m->0 < t.t ==> ms == 0
                }
            &&& exists|m: Option<u128>|
                {
                    &&& #[trigger] wall_clock_shows(m)
                    &&& m is Some && t.t <= m->0 <= 0xffff_ffff_ffff_ffff ==> s * 1_000_000
                        <= m->0 - t.t < (s + 1) * 1_000_000
                    &&& m is None || m->0 < t.t ==> s == 0
                }
        },
{
}

/// A reading is cut to its low 64 bits, and a time that does not fit is the last.
pub proof fn lemma_readings_are_brought_to_64_bits(
    nanos: u128,
    t: u64,
    micros: Option<u128>,
    m: u64,
)
    requires
        call_ensures(clock_bits, (nanos,), t),
        call_ensures(clamp_micros, (micros,), m),
    ensures
        (nanos - t) % 0x1_0000_0000_0000_0000 == 0,
        micros is None ==> m == 0,
        micros is Some && micros->0 <= 0xffff_ffff_ffff_ffff ==> m == micros->0,
        micros is Some && micros->0 > 0xffff_ffff_ffff_ffff ==> m == 0xffff_ffff_ffff_ffff,
{
}

/// A time is written as its seconds, a point and six digits of microseconds: the six
/// digits, weighed by their places, are the microseconds. Seconds below ten are one
/// digit, and more are written as their tenth is, with one more digit behind.
pub proof fn lemma_a_time_is_written_in_digits(
    micros: u64,
    text: Vec<u8>,
    tenth: u64,
    shorter: Vec<u8>,
)
    requires
        call_ensures(render_time, (micros,), text),
        call_ensures(render_time, (tenth,), shorter),
        tenth / 1_000_000 == micros / 10_000_000,
    ensures
        text@.len() >= 8,
        ({
            let n = text@.len() as int;
            &&& text@[n - 7] == '.' as u8
            &&& forall|i: int| n - 6 <= i < n ==> 48 <= #[trigger] text@[i] <= 57
            &&& (text@[n - 6] - 48) * 100_000 + (text@[n - 5] - 48) * 10_000 + (text@[n - 4] - 48)
                * 1_000 + (text@[n - 3] - 48) * 100 + (text@[n - 2] - 48) * 10 + (text@[n - 1] - 48)
                == micros % 1_000_000
            &&& micros < 10_000_000 ==> n == 8 && text@[0] == 48 + micros / 1_000_000
            &&& micros >= 10_000_000 ==> {
                &&& n == shorter@.len() + 1
                &&& text@.take(n - 8) == shorter@.take(n - 8)
                &&& text@[n - 8] == 48 + (micros / 1_000_000) % 10
            }
        }),
{
    let rest = (micros % 1_000_000) as nat;
    reveal_with_fuel(padded, 7);
    assert(padded(rest, 6).len() == 6);
    assert(padded((tenth % 1_000_000) as nat, 6).len() == 6);
    let head = decimal((micros / 1_000_000) as nat);
    lemma_decimal_is_not_empty((micros / 1_000_000) as nat);
    lemma_decimal_is_not_empty((tenth / 1_000_000) as nat);
    let n = text@.len() as int;
    assert(n == head.len() + 7);
    if micros >= 10_000_000 {
        let before = decimal((tenth / 1_000_000) as nat);
        assert((micros / 1_000_000) as nat / 10 == (tenth / 1_000_000) as nat);
        assert(head == before.push((48 + (micros / 1_000_000) % 10) as u8));
        assert(text@.take(n - 8) =~= before);
        assert(shorter@.take(n - 8) =~= before);
        assert(text@[n - 8] == head[n - 8]);
    }
}

proof fn lemma_decimal_is_not_empty(n: nat)
    ensures
        decimal(n).len() >= 1,
    decreases n,
{
    if n >= 10 {
        lemma_decimal_is_not_empty(n / 10);
    }
}

/// A time is written into a buffer as far as there is room for it and a zero behind
/// it. What lies behind the zero stays, and a buffer of no bytes stays as it was.
pub proof fn lemma_a_time_is_written_as_far_as_it_fits(
    buf: &mut Vec<u8>,
    len: usize,
    micros: u64,
    text: Vec<u8>,
)
    requires
        len <= old(buf)@.len(),
        call_ensures(write_time, (buf, len, micros), ()),
        call_ensures(render_time, (micros,), text),
    ensures
        final(buf)@.len() == old(buf)@.len(),
        len == 0 ==> final(buf)@ == old(buf)@,
        len > 0 ==> {
            let n = if text@.len() < len {
                text@.len() as int
            } else {
                len - 1
            };
            &&& final(buf)@.take(n) == text@.take(n)
            &&& final(buf)@[n] == 0
            &&& final(buf)@.skip(n + 1) == old(buf)@.skip(n + 1)
        },
{
    if len > 0 {
        let n = if text@.len() < len {
            text@.len() as int
        } else {
            len - 1
        };
        assert(final(buf)@.take(n) =~= text@.take(n));
        assert(final(buf)@.skip(n + 1) =~= old(buf)@.skip(n + 1));
    }
}

/// The present time as text is a time that the wall clock shows, written as far as it
/// fits.
pub proof fn lemma_the_present_time_is_what_the_clock_shows(buf: &mut Vec<u8>, len: usize)
    requires
        0 < len <= old(buf)@.len(),
        call_ensures(z_time_now_as_str, (Some(buf), len), ()),
    ensures
        final(buf)@.len() == old(buf)@.len(),
        exists|m: Option<u128>, t: u64|
            {
                let text = #[trigger] time_text(t);
                let n = if text.len() < len {
                    text.len() as int
                } else {
                    len - 1
                };
                &&& #[trigger] wall_clock_shows(m)
                &&& m is None ==> t == 0
                &&& m is Some && m->0 <= 0xffff_ffff_ffff_ffff ==> t == m->0
                &&& final(buf)@.take(n) == text.take(n)
                &&& final(buf)@[n] == 0
                &&& final(buf)@.skip(n + 1) == old(buf)@.skip(n + 1)
            },
{
    let t = choose|t: u64| #[trigger]
        crate::platform::is_time(t) && crate::platform::written(
            old(buf)@,
            len as int,
            time_text(t),
            final(buf)@,
        );
    let m = choose|m: Option<u128>| #[trigger]
        wall_clock_shows(m) && t == crate::platform::shown(m);
    let text = time_text(t);
    let n = if text.len() < len {
        text.len() as int
    } else {
        len - 1
    };
    assert(final(buf)@.take(n) =~= text.take(n));
    assert(final(buf)@.skip(n + 1) =~= old(buf)@.skip(n + 1));
    assert(wall_clock_shows(m));
}

proof fn lemma_steps_add_up(seed: u64, steps: nat)
    ensures
        stream_state(seed.wrapping_add(0x9E37_79B9_7F4A_7C15), steps) == stream_state(
            seed,
            steps + 1,
        ),
    decreases steps,
{
    reveal_with_fuel(stream_state, 2);
    if steps > 0 {
        lemma_steps_add_up(seed, (steps - 1) as nat);
    }
}

/// The generator gives the same bytes for the same seed, however many are asked for,
/// and from the ninth on those of the seed one step on.
pub proof fn lemma_the_generator_goes_on_from_step_to_step(
    out: &mut Vec<u8>,
    seed: u64,
    shorter: &mut Vec<u8>,
    next: &mut Vec<u8>,
    i: int,
)
    requires
        call_ensures(fill_stream, (out, seed), ()),
        call_ensures(fill_stream, (shorter, seed), ()),
        call_ensures(fill_stream, (next, seed.wrapping_add(0x9E37_79B9_7F4A_7C15)), ()),
        0 <= i < old(out)@.len(),
    ensures
        final(out)@.len() == old(out)@.len(),
        i < old(shorter)@.len() ==> final(shorter)@[i] == final(out)@[i],
        8 <= i && i - 8 < old(next)@.len() ==> final(next)@[i - 8] == final(out)@[i],
{
    if i >= 8 {
        lemma_steps_add_up(seed, ((i - 8) / 8 + 1) as nat);
        assert((i - 8) / 8 + 2 == i / 8 + 1);
        assert((i - 8) % 8 == i % 8);
    }
}

/// The first eight bytes of the generator are, least significant first, its seed one
/// step on, twice folded onto itself and multiplied and folded once more.
pub proof fn lemma_the_generator_mixes_its_seed(out: &mut Vec<u8>, seed: u64)
    requires
        call_ensures(fill_stream, (out, seed), ()),
        old(out)@.len() >= 8,
    ensures
        ({
            let b = final(out)@;
            let s = seed.wrapping_add(0x9E37_79B9_7F4A_7C15);
            let x = (s ^ (s >> 30u64)).wrapping_mul(0xBF58_476D_1CE4_E5B9);
            let y = (x ^ (x >> 27u64)).wrapping_mul(0x94D0_49BB_1331_11EB);
            b[0] + 0x100 * b[1] + 0x1_0000 * b[2] + 0x100_0000 * b[3] + 0x1_0000_0000 * b[4]
                + 0x100_0000_0000 * b[5] + 0x1_0000_0000_0000 * b[6] + 0x100_0000_0000_0000 * b[7]
                == y ^ (y >> 31u64)
        }),
{
    reveal_with_fuel(stream_state, 3);
    reveal_with_fuel(le_bytes, 9);
    let b = final(out)@;
    let word = le_bytes(mixed(stream_state(seed, 1)) as nat, 8);
    assert(b[0] == word[0] && b[1] == word[1] && b[2] == word[2] && b[3] == word[3] && b[4]
        == word[4] && b[5] == word[5] && b[6] == word[6] && b[7] == word[7]);
}

/// Random bytes fill the whole buffer: with what the machine gave, or, where it gave
/// nothing, with the generator's from the seed. A buffer of no bytes asks nobody.
pub proof fn lemma_random_bytes_come_from_the_machine_or_the_seed<
    U: FnOnce(usize) -> Option<Vec<u8>>,
    S: FnOnce() -> u64,
>(buf: &mut Vec<u8>, source: U, seed: S)
    requires
        call_ensures(z_random_fill::<U, S>, (Some(buf), source, seed), ()),
    ensures
        final(buf)@.len() == old(buf)@.len(),
        old(buf)@.len() > 0 ==> {
            let n = old(buf)@.len() as usize;
            ||| exists|v: Vec<u8>|
                v@ == final(buf)@ && #[trigger] call_ensures(source, (n,), Some(v))
            ||| call_ensures(source, (n,), None) && exists|s: u64| #[trigger]
                call_ensures(seed, (), s) && is_stream(final(buf)@, s)
        },
{
}

/// A random number is made of as many random bytes as it has, least significant
/// first, each of which weighs as much as its place says.
pub proof fn lemma_a_random_number_is_made_of_random_bytes<
    U: FnOnce(usize) -> Option<Vec<u8>>,
    S: FnOnce() -> u64,
>(source: U, seed: S, r8: u8, r16: u16, r32: u32, r64: u64)
    requires
        call_ensures(z_random_u8::<U, S>, (source, seed), r8),
        call_ensures(z_random_u16::<U, S>, (source, seed), r16),
        call_ensures(z_random_u32::<U, S>, (source, seed), r32),
        call_ensures(z_random_u64::<U, S>, (source, seed), r64),
    ensures
        exists|b: Seq<u8>| #[trigger]
            crate::platform::is_random(source, seed, b) && b.len() == 1 && r8 == b[0],
        exists|b: Seq<u8>| #[trigger]
            crate::platform::is_random(source, seed, b) && b.len() == 2 && r16 == b[0] + 0x100 * b[1],
        exists|b: Seq<u8>| #[trigger]
            crate::platform::is_random(source, seed, b) && b.len() == 4 && r32 == b[0] + 0x100 * b[1]
                + 0x1_0000 * b[2] + 0x100_0000 * b[3],
        exists|b: Seq<u8>| #[trigger]
            crate::platform::is_random(source, seed, b) && b.len() == 8 && r64 == b[0] + 0x100 * b[1]
                + 0x1_0000 * b[2] + 0x100_0000 * b[3] + 0x1_0000_0000 * b[4] + 0x100_0000_0000
                * b[5] + 0x1_0000_0000_0000 * b[6] + 0x100_0000_0000_0000 * b[7],
{
    reveal_with_fuel(le_value, 9);
    let a = choose|b: Seq<u8>|
        b.len() == 1 && #[trigger] crate::platform::is_random(source, seed, b) && r8 as nat
            == le_value(b);
    assert(crate::platform::is_random(source, seed, a) && r8 == a[0]);
    let c = choose|b: Seq<u8>|
        b.len() == 2 && #[trigger] crate::platform::is_random(source, seed, b) && r16 as nat
            == le_value(b);
    assert(crate::platform::is_random(source, seed, c) && r16 == c[0] + 0x100 * c[1]);
    let d = choose|b: Seq<u8>|
        b.len() == 4 && #[trigger] crate::platform::is_random(source, seed, b) && r32 as nat
            == le_value(b);
    assert(crate::platform::is_random(source, seed, d) && r32 == d[0] + 0x100 * d[1] + 0x1_0000
        * d[2] + 0x100_0000 * d[3]);
    let e = choose|b: Seq<u8>|
        b.len() == 8 && #[trigger] crate::platform::is_random(source, seed, b) && r64 as nat
            == le_value(b);
    assert(crate::platform::is_random(source, seed, e) && r64 == e[0] + 0x100 * e[1] + 0x1_0000
        * e[2] + 0x100_0000 * e[3] + 0x1_0000_0000 * e[4] + 0x100_0000_0000 * e[5]
        + 0x1_0000_0000_0000 * e[6] + 0x100_0000_0000_0000 * e[7]);
}

/// Bytes are random exactly where the machine gave them, or gave none and the
/// generator gave them from the seed.
pub proof fn lemma_bytes_are_random_by_their_source<
    U: FnOnce(usize) -> Option<Vec<u8>>,
    S: FnOnce() -> u64,
>(source: U, seed: S, bytes: Seq<u8>)
    ensures
        crate::platform::is_random(source, seed, bytes) == {
            ||| exists|v: Vec<u8>|
                v@ == bytes && #[trigger] call_ensures(source, (bytes.len() as usize,), Some(v))
            ||| call_ensures(source, (bytes.len() as usize,), None) && exists|s: u64| #[trigger]
                call_ensures(seed, (), s) && is_stream(bytes, s)
        },
{
}

} // verus!
