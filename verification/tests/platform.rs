use wz_capi_c::platform::clamp_micros;
use wz_capi_c::platform::clock_bits;
use wz_capi_c::platform::elapsed_micros;
use wz_capi_c::platform::elapsed_nanos;
use wz_capi_c::platform::epoch_micros;
use wz_capi_c::platform::fill_stream;
use wz_capi_c::platform::monotonic_nanos;
use wz_capi_c::platform::render_time;
use wz_capi_c::platform::write_time;
use wz_capi_c::platform::z_clock_elapsed_ms;
use wz_capi_c::platform::z_clock_elapsed_s;
use wz_capi_c::platform::z_clock_elapsed_us;
use wz_capi_c::platform::z_clock_now;
use wz_capi_c::platform::z_clock_t;
use wz_capi_c::platform::z_random_fill;
use wz_capi_c::platform::z_random_u16;
use wz_capi_c::platform::z_random_u32;
use wz_capi_c::platform::z_random_u64;
use wz_capi_c::platform::z_random_u8;
use wz_capi_c::platform::z_time_elapsed_ms;
use wz_capi_c::platform::z_time_elapsed_s;
use wz_capi_c::platform::z_time_elapsed_us;
use wz_capi_c::platform::z_time_now;
use wz_capi_c::platform::z_time_now_as_str;
use wz_capi_c::platform::z_time_t;
use wz_capi_c::platform::MonotonicBase;

/// One interval, read in three units.
#[test]
fn the_three_elapsed_readings_agree_on_one_interval() {
    let base = MonotonicBase::install();
    let start = z_clock_now(&base);
    let waited = std::time::Instant::now();
    while waited.elapsed() < std::time::Duration::from_millis(20) {}
    let us = z_clock_elapsed_us(&base, Some(&start));
    let ms = z_clock_elapsed_ms(&base, Some(&start));
    let s = z_clock_elapsed_s(&base, Some(&start));
    assert!(ms >= 20, "20 ms of sleep must be visible, saw {ms} ms");
    assert!(us >= ms * 1_000, "us ({us}) must dominate ms ({ms})");
    assert_eq!(s, 0, "20 ms is under a second");
}

/// A null clock is 0.
#[test]
fn a_null_clock_elapses_zero() {
    let base = MonotonicBase::install();
    assert_eq!(z_clock_elapsed_us(&base, None), 0);
    assert_eq!(z_clock_elapsed_ms(&base, None), 0);
    assert_eq!(z_clock_elapsed_s(&base, None), 0);
}

/// A clock from the future has elapsed by nothing.
#[test]
fn a_future_clock_saturates_rather_than_wrapping() {
    let base = MonotonicBase::install();
    let future = z_clock_t {
        t: u64::MAX,
        t_base: 0,
    };
    assert_eq!(z_clock_elapsed_ms(&base, Some(&future)), 0);
}

#[test]
fn readings_are_brought_into_range() {
    assert_eq!(clock_bits(u64::MAX as u128 + 6), 5);
    assert_eq!(clamp_micros(Some(u64::MAX as u128 + 6)), u64::MAX);
    assert_eq!(clamp_micros(Some(17)), 17);
    assert_eq!(clamp_micros(None), 0);
    let past = z_clock_t { t: 10, t_base: 0 };
    assert_eq!(elapsed_nanos(Some(&past), 25), 15);
    assert_eq!(elapsed_nanos(Some(&past), 9), 0);
    assert_eq!(elapsed_nanos(None, 25), 0);
    assert_eq!(elapsed_micros(Some(&z_time_t { t: 3 }), 10), 7);
    assert_eq!(elapsed_micros(Some(&z_time_t { t: 11 }), 10), 0);
}

#[test]
fn the_clocks_run() {
    let base = MonotonicBase::install();
    let first = monotonic_nanos(&base);
    let waited = std::time::Instant::now();
    while waited.elapsed() < std::time::Duration::from_millis(2) {}
    assert!(monotonic_nanos(&base) >= first + 1_000_000);
    // 2020 has passed, 2200 has not come.
    let micros = epoch_micros();
    assert!(micros > 1_577_836_800_000_000 && micros < 7_258_118_400_000_000);
    let now = z_time_now();
    assert!(z_time_elapsed_us(Some(&now)) < 20_000_000);
    assert!(z_time_elapsed_ms(Some(&now)) < 20_000);
    assert_eq!(z_time_elapsed_s(Some(&z_time_t { t: u64::MAX })), 0);
    assert_eq!(z_time_elapsed_us(None), 0);
    assert!(z_time_elapsed_s(Some(&z_time_t { t: 0 })) > 1_577_836_800);
}

#[test]
fn a_time_is_written_with_six_digits_behind_the_point() {
    assert_eq!(render_time(0), b"0.000000");
    assert_eq!(render_time(1_000_042), b"1.000042");
    assert_eq!(render_time(u64::MAX), b"18446744073709.551615");
    let mut buf = vec![b'#'; 12];
    write_time(&mut buf, 10, 12_345_678);
    assert_eq!(buf, b"12.345678\0##");
    // A buffer that is too short still ends.
    let mut buf = vec![b'#'; 12];
    write_time(&mut buf, 4, 12_345_678);
    assert_eq!(buf, b"12.\0########");
    let mut buf = vec![b'#'; 2];
    write_time(&mut buf, 0, 12_345_678);
    assert_eq!(buf, b"##");
    let mut buf = vec![b'#'; 40];
    z_time_now_as_str(Some(&mut buf), 40);
    let end = buf.iter().position(|b| *b == 0).unwrap();
    let text = String::from_utf8(buf[..end].to_vec()).unwrap();
    let (secs, micros) = text.split_once('.').unwrap();
    assert!(secs.parse::<u64>().unwrap() > 1_577_836_800);
    assert_eq!(micros.len(), 6);
    z_time_now_as_str(None, 0);
}

#[test]
fn the_generator_gives_its_known_numbers() {
    // The first numbers of splitmix64 from seed 0.
    let mut out = vec![0u8; 20];
    fill_stream(&mut out, 0);
    assert_eq!(out[..8], 0xe220_a839_7b1d_cdaf_u64.to_le_bytes());
    assert_eq!(out[8..16], 0x6e78_9e6a_a1b9_65f4_u64.to_le_bytes());
    assert_eq!(out[16..], 0x06c4_5d18_8009_454f_u64.to_le_bytes()[..4]);
}

#[test]
fn random_numbers_are_read_least_significant_first() {
    let source = |n: usize| Some((1..=n as u8).collect::<Vec<u8>>());
    assert_eq!(z_random_u8(source, || 0), 1);
    assert_eq!(z_random_u16(source, || 0), 0x0201);
    assert_eq!(z_random_u32(source, || 0), 0x0403_0201);
    assert_eq!(z_random_u64(source, || 0), 0x0807_0605_0403_0201);
    // Without a source the generator is run.
    assert_eq!(z_random_u64(|_| None, || 0), 0xe220_a839_7b1d_cdaf);
    let mut buf = vec![0u8; 3];
    z_random_fill(Some(&mut buf), source, || 0);
    assert_eq!(buf, [1, 2, 3]);
    let mut empty: Vec<u8> = vec![];
    z_random_fill(Some(&mut empty), |_| panic!("nothing is asked for"), || 0);
    z_random_fill(None, source, || 0);
}
