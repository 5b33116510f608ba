use wz_capi_c::result::Z_CHANNEL_DISCONNECTED;
use wz_capi_c::result::Z_CHANNEL_NODATA;
use wz_capi_c::result::Z_EBUSY_MUTEX;
use wz_capi_c::result::Z_EDESERIALIZE;
use wz_capi_c::result::Z_EGENERIC;
use wz_capi_c::result::Z_EINVAL;
use wz_capi_c::result::Z_EINVAL_MUTEX;
use wz_capi_c::result::Z_EIO;
use wz_capi_c::result::Z_ENETWORK;
use wz_capi_c::result::Z_ENULL;
use wz_capi_c::result::Z_EPARSE;
use wz_capi_c::result::Z_ESESSION_CLOSED;
use wz_capi_c::result::Z_EUNAVAILABLE;
use wz_capi_c::result::Z_OK;

/// A caller that tests for a negative code tests for every error and nothing else.
#[test]
fn the_codes_are_distinct_and_only_ok_is_non_negative() {
    let errs = [
        Z_EINVAL,
        Z_EPARSE,
        Z_EIO,
        Z_ENETWORK,
        Z_ENULL,
        Z_EUNAVAILABLE,
        Z_EDESERIALIZE,
        Z_ESESSION_CLOSED,
        Z_EINVAL_MUTEX,
        Z_EBUSY_MUTEX,
        Z_EGENERIC,
    ];
    for (i, a) in errs.iter().enumerate() {
        assert!(*a < 0, "{a} must be negative to satisfy `if (rc < 0)`");
        for b in &errs[i + 1..] {
            assert_ne!(a, b, "two distinct conditions share a code");
        }
    }
    assert_eq!(Z_OK, 0);
}

/// A channel status is neither an error nor plain success.
#[test]
fn the_channel_statuses_are_positive_and_not_ok() {
    assert_eq!(Z_CHANNEL_DISCONNECTED, 1);
    assert_eq!(Z_CHANNEL_NODATA, 2);
    for code in [Z_CHANNEL_DISCONNECTED, Z_CHANNEL_NODATA] {
        assert!(code > 0, "a channel status must not read as an error");
        assert_ne!(code, Z_OK, "a channel status must not read as success");
    }
}

/// The codes are this interface's own; only the generic one is also the smallest
/// number there is.
#[test]
fn the_codes_are_not_zenoh_picos() {
    for code in [
        Z_EINVAL,
        Z_EPARSE,
        Z_EIO,
        Z_ENETWORK,
        Z_ENULL,
        Z_EUNAVAILABLE,
    ] {
        assert_ne!(code, -128, "that is zenoh-pico's _Z_ERR_GENERIC");
        assert_ne!(code, -127, "that is zenoh-pico's _Z_ERR_NULL");
    }
    assert_eq!(Z_EGENERIC, i8::MIN, "zenoh-c's Z_EGENERIC is INT8_MIN");
}
