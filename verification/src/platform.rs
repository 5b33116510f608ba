//! Clocks, time as text, and random bytes.
//!
//! The monotonic clock measures intervals and never goes back. The wall clock
//! tells the time and may. A reading from the future has elapsed by nothing.

use vstd::prelude::*;

use crate::codec::decode_le;
use crate::codec::encode_le;
use crate::codec::le_bytes;
use crate::codec::le_value;

verus! {

/// Declares `std::time::Instant`, a reading of the machine's monotonic clock.
#[verifier::external_type_specification]
#[verifier::external_body]
pub struct ExInstant(std::time::Instant);

/// Reads the monotonic clock with `std::time::Instant::now`. Trusted: that it
/// returns. What it reads is the machine's.
#[verifier::external_body]
fn instant_now() -> std::time::Instant {
    std::time::Instant::now()
}

/// How many nanoseconds ago a reading was taken, by `std::time::Instant::elapsed`.
/// Trusted: that it returns. What it reads is the machine's.
#[verifier::external_body]
fn nanos_since(start: &std::time::Instant) -> u128 {
    start.elapsed().as_nanos()
}

/// What the wall clock shows in microseconds since the Unix epoch, by
/// `std::time::SystemTime::elapsed` on the epoch, or nothing where the clock is set
/// before it. Trusted: that it returns. What the clock shows is the machine's.
#[verifier::external_body]
fn wall_clock_micros() -> Option<u128> {
    std::time::UNIX_EPOCH.elapsed().ok().map(|d| d.as_micros())
}

/// Whether `instant` may be what a call of the monotonic clock gives.
pub closed spec fn clock_gives(instant: std::time::Instant) -> bool {
    call_ensures(instant_now, (), instant)
}

/// Whether the monotonic clock, asked how long ago `start` was, may answer `nanos`.
pub closed spec fn clock_answers(start: std::time::Instant, nanos: u128) -> bool {
    call_ensures(nanos_since, (&start,), nanos)
}

/// Whether the wall clock may show `micros` since the Unix epoch, or that it is set
/// before it.
pub closed spec fn wall_clock_shows(micros: Option<u128>) -> bool {
    call_ensures(wall_clock_micros, (), micros)
}

/// Where the monotonic clock of a process starts.
pub struct MonotonicBase {
    pub start: std::time::Instant,
}

impl MonotonicBase {
    /// Starts the clock now: at what the machine's clock gives.
    pub fn install() -> (base: MonotonicBase)
        ensures
            clock_gives(base.start),
    {
        MonotonicBase { start: instant_now() }
    }
}

/// The low 64 bits of a reading.
pub fn clock_bits(nanos: u128) -> (t: u64)
    ensures
        t == nanos as int % 0x1_0000_0000_0000_0000,
{
    (nanos % 0x1_0000_0000_0000_0000) as u64
}

/// Whether `t` is a reading of the clock against a base: the low 64 bits of what
/// the clock answers.
pub open spec fn is_reading(base: &MonotonicBase, t: u64) -> bool {
    exists|nanos: u128| #[trigger]
        clock_answers(base.start, nanos) && t == nanos as int % 0x1_0000_0000_0000_0000
}

/// Nanoseconds since the base, which wrap after some 584 years.
pub fn monotonic_nanos(base: &MonotonicBase) -> (t: u64)
    ensures
        is_reading(base, t),
{
    let nanos: u128 = nanos_since(&base.start);
    assert(clock_answers(base.start, nanos));
    clock_bits(nanos)
}

/// A point on the monotonic clock.
#[derive(Clone, Copy, Debug, PartialEq, Eq, Structural)]
pub struct z_clock_t {
    /// Nanoseconds since the base.
    pub t: u64,
    /// Not used.
    pub t_base: usize,
}

/// The present point on the monotonic clock.
pub fn z_clock_now(base: &MonotonicBase) -> (clock: z_clock_t)
    ensures
        is_reading(base, clock.t),
        clock.t_base == 0,
{
    z_clock_t { t: monotonic_nanos(base), t_base: 0 }
}

/// How much of one reading lies after another.
pub open spec fn gap(now: u64, past: u64) -> int {
    if now < past {
        0
    } else {
        now - past
    }
}

/// The nanoseconds between a point and a reading.
pub open spec fn clock_gap(time: Option<&z_clock_t>, now: u64) -> int {
    match time {
        Some(time) => gap(now, time.t),
        None => 0,
    }
}

/// The nanoseconds elapsed since a point when the clock reads `now`. Without a
/// point there are none.
pub fn elapsed_nanos(time: Option<&z_clock_t>, now: u64) -> (nanos: u64)
    ensures
        nanos == clock_gap(time, now),
{
    match time {
        Some(time) => now.saturating_sub(time.t),
        None => 0,
    }
}

/// Whether `r` is what has elapsed since a point, in units of `unit` nanoseconds,
/// by a reading of the clock against a base.
pub open spec fn clock_elapsed(
    base: &MonotonicBase,
    time: Option<&z_clock_t>,
    unit: int,
    r: u64,
) -> bool {
    exists|now: u64| #[trigger] is_reading(base, now) && r == clock_gap(time, now) / unit
}

/// Microseconds since a point.
pub fn z_clock_elapsed_us(base: &MonotonicBase, time: Option<&z_clock_t>) -> (r: u64)
    ensures
        clock_elapsed(base, time, 1_000, r),
{
    let now: u64 = monotonic_nanos(base);
    elapsed_nanos(time, now) / 1_000
}

/// Milliseconds since a point.
pub fn z_clock_elapsed_ms(base: &MonotonicBase, time: Option<&z_clock_t>) -> (r: u64)
    ensures
        clock_elapsed(base, time, 1_000_000, r),
{
    let now: u64 = monotonic_nanos(base);
    elapsed_nanos(time, now) / 1_000_000
}

/// Seconds since a point.
pub fn z_clock_elapsed_s(base: &MonotonicBase, time: Option<&z_clock_t>) -> (r: u64)
    ensures
        clock_elapsed(base, time, 1_000_000_000, r),
{
    let now: u64 = monotonic_nanos(base);
    elapsed_nanos(time, now) / 1_000_000_000
}

/// The three readings of one interval agree: each is the finer one in its own
/// units, rounded down.
pub proof fn lemma_the_readings_of_an_interval_agree(nanos: u64)
    ensures
        nanos / 1_000_000 == (nanos / 1_000) / 1_000,
        nanos / 1_000_000_000 == (nanos / 1_000_000) / 1_000,
        nanos / 1_000 >= (nanos / 1_000_000) * 1_000,
{
}

/// Nothing has elapsed since no point at all, nor since the last point there is,
/// whatever the clock reads.
pub proof fn lemma_nothing_elapses_since_the_future(
    base: &MonotonicBase,
    time: Option<&z_clock_t>,
    unit: int,
    r: u64,
)
    requires
        unit > 0,
        time matches Some(time) ==> time.t == u64::MAX,
        clock_elapsed(base, time, unit, r),
    ensures
        r == 0,
{
    let now = choose|now: u64| #[trigger]
        is_reading(base, now) && r == clock_gap(time, now) / unit;
    assert(clock_gap(time, now) == 0);
    assert(0int / unit == 0) by (nonlinear_arith)
        requires
            unit > 0,
    ;
}

/// An instant on the wall clock.
#[derive(Clone, Copy, Debug, PartialEq, Eq, Structural)]
pub struct z_time_t {
    /// Microseconds since the Unix epoch.
    pub t: u64,
}

/// What the wall clock shows, in 64 bits: the most there is where it shows more,
/// and the epoch itself where it is set before it.
pub open spec fn shown(micros: Option<u128>) -> u64 {
    match micros {
        Some(micros) => if micros > u64::MAX {
            u64::MAX
        } else {
            micros as u64
        },
        None => 0,
    }
}

/// A reading of the wall clock in 64 bits.
pub fn clamp_micros(micros: Option<u128>) -> (t: u64)
    ensures
        t == shown(micros),
{
    match micros {
        Some(micros) => if micros > u64::MAX as u128 {
            u64::MAX
        } else {
            micros as u64
        },
        None => 0,
    }
}

/// Whether `t` is what the wall clock shows, in 64 bits.
pub open spec fn is_time(t: u64) -> bool {
    exists|micros: Option<u128>| #[trigger] wall_clock_shows(micros) && t == shown(micros)
}

/// Microseconds since the Unix epoch.
pub fn epoch_micros() -> (t: u64)
    ensures
        is_time(t),
{
    let micros = wall_clock_micros();
    assert(wall_clock_shows(micros));
    clamp_micros(micros)
}

/// The present instant on the wall clock.
pub fn z_time_now() -> (time: z_time_t)
    ensures
        is_time(time.t),
{
    z_time_t { t: epoch_micros() }
}

/// The microseconds between an instant and a reading.
pub open spec fn time_gap(time: Option<&z_time_t>, now: u64) -> int {
    match time {
        Some(time) => gap(now, time.t),
        None => 0,
    }
}

/// The microseconds elapsed since an instant when the clock shows `now`. A clock
/// that was set back has elapsed by nothing.
pub fn elapsed_micros(time: Option<&z_time_t>, now: u64) -> (micros: u64)
    ensures
        micros == time_gap(time, now),
{
    match time {
        Some(time) => now.saturating_sub(time.t),
        None => 0,
    }
}

/// Whether `r` is what has elapsed since an instant, in units of `unit`
/// microseconds, by what the wall clock shows.
pub open spec fn time_elapsed(time: Option<&z_time_t>, unit: int, r: u64) -> bool {
    exists|now: u64| #[trigger] is_time(now) && r == time_gap(time, now) / unit
}

/// Microseconds since an instant.
pub fn z_time_elapsed_us(time: Option<&z_time_t>) -> (r: u64)
    ensures
        time_elapsed(time, 1, r),
{
    let now: u64 = epoch_micros();
    let r: u64 = elapsed_micros(time, now);
    assert(r == time_gap(time, now) / 1);
    r
}

/// Milliseconds since an instant.
pub fn z_time_elapsed_ms(time: Option<&z_time_t>) -> (r: u64)
    ensures
        time_elapsed(time, 1_000, r),
{
    let now: u64 = epoch_micros();
    elapsed_micros(time, now) / 1_000
}

/// Seconds since an instant.
pub fn z_time_elapsed_s(time: Option<&z_time_t>) -> (r: u64)
    ensures
        time_elapsed(time, 1_000_000, r),
{
    let now: u64 = epoch_micros();
    elapsed_micros(time, now) / 1_000_000
}

/// A number in decimal digits, without leading zeros.
pub open spec fn decimal(n: nat) -> Seq<u8>
    decreases n,
{
    if n < 10 {
        seq![(48 + n) as u8]
    } else {
        decimal(n / 10).push((48 + n % 10) as u8)
    }
}

/// The last `width` decimal digits of a number.
pub open spec fn padded(n: nat, width: nat) -> Seq<u8>
    decreases width,
{
    if width == 0 {
        Seq::empty()
    } else {
        padded(n / 10, (width - 1) as nat).push((48 + n % 10) as u8)
    }
}

/// A time as text: seconds, a point, and six digits of microseconds.
pub open spec fn time_text(micros: u64) -> Seq<u8> {
    decimal((micros / 1_000_000) as nat) + seq![46u8] + padded((micros % 1_000_000) as nat, 6)
}

fn push_decimal(out: &mut Vec<u8>, n: u64)
    ensures
        final(out)@ == old(out)@ + decimal(n as nat),
    decreases n,
{
    if n < 10 {
        out.push((48 + n) as u8);
        assert(out@ =~= old(out)@ + decimal(n as nat));
    } else {
        push_decimal(out, n / 10);
        out.push((48 + n % 10) as u8);
        assert(out@ =~= old(out)@ + decimal(n as nat));
    }
}

fn push_padded(out: &mut Vec<u8>, n: u64, width: u8)
    ensures
        final(out)@ == old(out)@ + padded(n as nat, width as nat),
    decreases width,
{
    if width > 0 {
        push_padded(out, n / 10, width - 1);
        out.push((48 + n % 10) as u8);
    }
    assert(out@ =~= old(out)@ + padded(n as nat, width as nat));
}

/// Renders a time.
pub fn render_time(micros: u64) -> (text: Vec<u8>)
    ensures
        text@ == time_text(micros),
{
    let mut text: Vec<u8> = Vec::new();
    push_decimal(&mut text, micros / 1_000_000);
    text.push(46);
    push_padded(&mut text, micros % 1_000_000, 6);
    assert(text@ =~= time_text(micros));
    text
}

/// What the first `len` bytes of a buffer hold once a text is written there: as
/// much of the text as leaves room for a zero behind it. What lies further on
/// stays.
pub open spec fn written(before: Seq<u8>, len: int, text: Seq<u8>, after: Seq<u8>) -> bool {
    if len == 0 {
        after == before
    } else {
        let n = if text.len() < len {
            text.len() as int
        } else {
            len - 1
        };
        after == text.take(n).push(0) + before.skip(n + 1)
    }
}

/// Writes a time into the first `len` bytes of a buffer.
pub fn write_time(buf: &mut Vec<u8>, len: usize, micros: u64)
    requires
        len <= old(buf)@.len(),
    ensures
        written(old(buf)@, len as int, time_text(micros), final(buf)@),
{
    if len == 0 {
        return;
    }
    let text = render_time(micros);
    let n: usize = if text.len() < len {
        text.len()
    } else {
        len - 1
    };
    let ghost before = buf@;
    let mut i: usize = 0;
    while i < n
        invariant
            i <= n < len <= buf@.len(),
            n <= text@.len(),
            buf@ == text@.take(i as int) + before.skip(i as int),
            buf@.len() == before.len(),
        decreases n - i,
    {
        buf.set(i, text[i]);
        i = i + 1;
        assert(buf@ =~= text@.take(i as int) + before.skip(i as int));
    }
    buf.set(n, 0);
    assert(buf@ =~= text@.take(n as int).push(0) + before.skip(n + 1));
}

/// A text written is one that ends: a zero stands among the first `len` bytes.
pub proof fn lemma_a_written_time_ends(before: Seq<u8>, len: int, text: Seq<u8>, after: Seq<u8>)
    requires
        0 < len <= before.len(),
        written(before, len, text, after),
    ensures
        after.len() == before.len(),
        exists|i: int| 0 <= i < len && #[trigger] after[i] == 0,
{
    let n = if text.len() < len {
        text.len() as int
    } else {
        len - 1
    };
    assert(after[n] == 0);
}

/// Whether the first `len` bytes of a buffer were given the time that the wall
/// clock shows.
pub open spec fn shows_time(before: Seq<u8>, len: int, after: Seq<u8>) -> bool {
    exists|micros: u64| #[trigger]
        is_time(micros) && written(before, len, time_text(micros), after)
}

/// Writes the present time into the first `len` bytes of a buffer.
pub fn z_time_now_as_str(buf: Option<&mut Vec<u8>>, len: usize)
    requires
        buf matches Some(buf) ==> len <= buf@.len(),
    ensures
        buf matches Some(buf) ==> shows_time(buf@, len as int, final(buf)@),
{
    if let Some(buf) = buf {
        let micros: u64 = epoch_micros();
        write_time(buf, len, micros);
    }
}

/// How far the state of the generator moves for each eight bytes.
pub const STREAM_STEP: u64 = 0x9E37_79B9_7F4A_7C15;

/// The first multiplier of the generator.
pub const FIRST_MULTIPLIER: u64 = 0xBF58_476D_1CE4_E5B9;

/// The second multiplier of the generator.
pub const SECOND_MULTIPLIER: u64 = 0x94D0_49BB_1331_11EB;

/// The state of the generator after `steps` steps from a seed.
pub open spec fn stream_state(seed: u64, steps: nat) -> u64
    decreases steps,
{
    if steps == 0 {
        seed
    } else {
        stream_state(seed, (steps - 1) as nat).wrapping_add(STREAM_STEP)
    }
}

/// What the generator gives out in a state.
pub open spec fn mixed(state: u64) -> u64 {
    let a = (state ^ (state >> 30)).wrapping_mul(FIRST_MULTIPLIER);
    let b = (a ^ (a >> 27)).wrapping_mul(SECOND_MULTIPLIER);
    b ^ (b >> 31)
}

/// Whether bytes are the generator's from a seed on: eight from each state, the
/// least significant first.
pub open spec fn is_stream(bytes: Seq<u8>, seed: u64) -> bool {
    forall|i: int|
        0 <= i < bytes.len() ==> #[trigger] bytes[i] == le_bytes(
            mixed(stream_state(seed, (i / 8 + 1) as nat)) as nat,
            8,
        )[i % 8]
}

fn mix(state: u64) -> (z: u64)
    ensures
        z == mixed(state),
{
    let a: u64 = (state ^ (state >> 30)).wrapping_mul(FIRST_MULTIPLIER);
    let b: u64 = (a ^ (a >> 27)).wrapping_mul(SECOND_MULTIPLIER);
    b ^ (b >> 31)
}

proof fn lemma_eight_bytes(v: nat)
    ensures
        le_bytes(v, 8).len() == 8,
{
    reveal_with_fuel(le_bytes, 9);
}

/// Fills a buffer from the generator.
pub fn fill_stream(out: &mut Vec<u8>, seed: u64)
    ensures
        final(out)@.len() == old(out)@.len(),
        is_stream(final(out)@, seed),
{
    let n: usize = out.len();
    let mut state: u64 = seed;
    let mut word: Vec<u8> = Vec::new();
    let mut i: usize = 0;
    while i < n
        invariant
            n == out@.len(),
            i <= n,
            state == stream_state(seed, ((i + 7) / 8) as nat),
            i % 8 != 0 ==> word@ == le_bytes(
                mixed(stream_state(seed, (i / 8 + 1) as nat)) as nat,
                8,
            ),
            is_stream(out@.take(i as int), seed),
        decreases n - i,
    {
        if i % 8 == 0 {
            state = state.wrapping_add(STREAM_STEP);
            word = Vec::new();
            encode_le(&mut word, mix(state), 8);
            proof {
                assert((i + 7) / 8 == i / 8);
                assert(state == stream_state(seed, (i / 8 + 1) as nat));
                assert(word@ =~= le_bytes(mixed(state) as nat, 8));
            }
        }
        proof {
            lemma_eight_bytes(mixed(stream_state(seed, (i / 8 + 1) as nat)) as nat);
        }
        let ghost before = out@;
        out.set(i, word[i % 8]);
        i = i + 1;
        assert((i + 7) / 8 == (i - 1) / 8 + 1);
        assert(i % 8 != 0 ==> i / 8 == (i - 1) / 8);
        assert forall|k: int| 0 <= k < i implies #[trigger] out@.take(i as int)[k] == le_bytes(
            mixed(stream_state(seed, (k / 8 + 1) as nat)) as nat,
            8,
        )[k % 8] by {
            if k < i - 1 {
                assert(out@.take(i as int)[k] == before.take(i as int - 1)[k]);
            }
        }
    }
    assert(out@.take(i as int) =~= out@);
}

/// Whether bytes are random ones: from the machine's source, or where it gives
/// none, from the generator.
pub open spec fn is_random<U: FnOnce(usize) -> Option<Vec<u8>>, S: FnOnce() -> u64>(
    source: U,
    seed: S,
    bytes: Seq<u8>,
) -> bool {
    ||| exists|v: Vec<u8>|
        v@ == bytes && #[trigger] call_ensures(source, (bytes.len() as usize,), Some(v))
    ||| call_ensures(source, (bytes.len() as usize,), None) && exists|s: u64| #[trigger]
        call_ensures(seed, (), s) && is_stream(bytes, s)
}

/// Whether a source of random bytes may be asked for `n` and gives as many, where
/// it gives any. Where it gives none, the seed may be asked for.
pub open spec fn gives_what_is_asked<U: FnOnce(usize) -> Option<Vec<u8>>, S: FnOnce() -> u64>(
    source: U,
    seed: S,
    n: usize,
) -> bool {
    &&& call_requires(source, (n,))
    &&& forall|v: Vec<u8>| #[trigger] call_ensures(source, (n,), Some(v)) ==> v@.len() == n
    &&& call_ensures(source, (n,), None) ==> call_requires(seed, ())
}

/// Fills a buffer with random bytes. `source` reads the machine's; where it gives
/// none, the generator runs from `seed`, which is good enough for what needs no
/// secrecy.
pub fn fill_random<U: FnOnce(usize) -> Option<Vec<u8>>, S: FnOnce() -> u64>(
    out: &mut Vec<u8>,
    source: U,
    seed: S,
)
    requires
        gives_what_is_asked(source, seed, old(out)@.len() as usize),
    ensures
        final(out)@.len() == old(out)@.len(),
        is_random(source, seed, final(out)@),
{
    let n: usize = out.len();
    match source(n) {
        Some(bytes) => {
            *out = bytes;
        },
        None => {
            let s: u64 = seed();
            fill_stream(out, s);
            assert(call_ensures(seed, (), s));
        },
    }
}

/// Fills a buffer with random bytes. An empty one asks for none.
pub fn z_random_fill<U: FnOnce(usize) -> Option<Vec<u8>>, S: FnOnce() -> u64>(
    buf: Option<&mut Vec<u8>>,
    source: U,
    seed: S,
)
    requires
        buf matches Some(buf) ==> (buf@.len() > 0 ==> gives_what_is_asked(
            source,
            seed,
            buf@.len() as usize,
        )),
    ensures
        buf matches Some(buf) ==> {
            &&& final(buf)@.len() == buf@.len()
            &&& buf@.len() > 0 ==> is_random(source, seed, final(buf)@)
        },
{
    if let Some(buf) = buf {
        if buf.len() > 0 {
            fill_random(buf, source, seed);
        }
    }
}

/// Whether `r` is the number in `n` random bytes, least significant first.
pub open spec fn is_random_number<U: FnOnce(usize) -> Option<Vec<u8>>, S: FnOnce() -> u64>(
    source: U,
    seed: S,
    n: nat,
    r: nat,
) -> bool {
    exists|bytes: Seq<u8>|
        bytes.len() == n && #[trigger] is_random(source, seed, bytes) && r == le_value(bytes)
}

fn random_number<U: FnOnce(usize) -> Option<Vec<u8>>, S: FnOnce() -> u64>(
    n: u8,
    source: U,
    seed: S,
) -> (r: u64)
    requires
        n <= 8,
        gives_what_is_asked(source, seed, n as usize),
    ensures
        is_random_number(source, seed, n as nat, r as nat),
{
    let mut buf: Vec<u8> = Vec::new();
    let mut i: u8 = 0;
    while i < n
        invariant
            buf@.len() == i <= n,
        decreases n - i,
    {
        buf.push(0);
        i = i + 1;
    }
    fill_random(&mut buf, source, seed);
    let r: u64 = decode_le(buf.as_slice(), 0, n);
    assert(buf@.subrange(0, n as int) =~= buf@);
    r
}

proof fn lemma_number_fits<U: FnOnce(usize) -> Option<Vec<u8>>, S: FnOnce() -> u64>(
    source: U,
    seed: S,
    n: nat,
    r: nat,
)
    requires
        is_random_number(source, seed, n, r),
    ensures
        r < crate::codec::le_limit(n),
{
    let bytes = choose|bytes: Seq<u8>|
        bytes.len() == n && #[trigger] is_random(source, seed, bytes) && r == le_value(bytes);
    crate::codec::lemma_le_bytes_of_value(bytes);
}

/// A random byte.
pub fn z_random_u8<U: FnOnce(usize) -> Option<Vec<u8>>, S: FnOnce() -> u64>(
    source: U,
    seed: S,
) -> (r: u8)
    requires
        gives_what_is_asked(source, seed, 1),
    ensures
        is_random_number(source, seed, 1, r as nat),
{
    let r: u64 = random_number(1, source, seed);
    proof {
        lemma_number_fits(source, seed, 1, r as nat);
        reveal_with_fuel(crate::codec::le_limit, 2);
    }
    r as u8
}

/// A random 16-bit number.
pub fn z_random_u16<U: FnOnce(usize) -> Option<Vec<u8>>, S: FnOnce() -> u64>(
    source: U,
    seed: S,
) -> (r: u16)
    requires
        gives_what_is_asked(source, seed, 2),
    ensures
        is_random_number(source, seed, 2, r as nat),
{
    let r: u64 = random_number(2, source, seed);
    proof {
        lemma_number_fits(source, seed, 2, r as nat);
        reveal_with_fuel(crate::codec::le_limit, 3);
    }
    r as u16
}

/// A random 32-bit number.
pub fn z_random_u32<U: FnOnce(usize) -> Option<Vec<u8>>, S: FnOnce() -> u64>(
    source: U,
    seed: S,
) -> (r: u32)
    requires
        gives_what_is_asked(source, seed, 4),
    ensures
        is_random_number(source, seed, 4, r as nat),
{
    let r: u64 = random_number(4, source, seed);
    proof {
        lemma_number_fits(source, seed, 4, r as nat);
        reveal_with_fuel(crate::codec::le_limit, 5);
    }
    r as u32
}

/// A random 64-bit number.
pub fn z_random_u64<U: FnOnce(usize) -> Option<Vec<u8>>, S: FnOnce() -> u64>(
    source: U,
    seed: S,
) -> (r: u64)
    requires
        gives_what_is_asked(source, seed, 8),
    ensures
        is_random_number(source, seed, 8, r as nat),
{
    random_number(8, source, seed)
}

} // verus!
