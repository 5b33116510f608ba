//! Status codes of the C interface.
//!
//! A status is an `i8`. Zero is success, every failure is negative, and the two
//! channel statuses are positive, so a caller that tests `rc < 0` sees failures
//! and nothing else.

use vstd::prelude::*;

verus! {

/// The status type: a signed byte.
pub type ZResult = i8;

/// Success.
pub const Z_OK: ZResult = 0;

/// An argument was invalid.
pub const Z_EINVAL: ZResult = -1;

/// A text could not be parsed.
pub const Z_EPARSE: ZResult = -2;

/// An I/O operation failed.
pub const Z_EIO: ZResult = -3;

/// A network operation failed.
pub const Z_ENETWORK: ZResult = -4;

/// A required argument was null.
pub const Z_ENULL: ZResult = -5;

/// A resource could not be obtained.
pub const Z_EUNAVAILABLE: ZResult = -6;

/// A value could not be deserialized.
pub const Z_EDESERIALIZE: ZResult = -7;

/// The session was closed.
pub const Z_ESESSION_CLOSED: ZResult = -8;

/// A channel is disconnected and will never yield again. Positive: it is a
/// status, not a failure.
pub const Z_CHANNEL_DISCONNECTED: ZResult = 1;

/// A channel is alive but empty and the caller asked not to block.
pub const Z_CHANNEL_NODATA: ZResult = 2;

/// A mutex handle was not usable: the negated errno of the mutex family.
pub const Z_EINVAL_MUTEX: ZResult = -22;

/// A mutex was already held when a caller tried to take it.
pub const Z_EBUSY_MUTEX: ZResult = -16;

/// An unclassified failure: the minimum of the status type.
pub const Z_EGENERIC: ZResult = -128;

/// Every failure code.
pub open spec fn error_codes() -> Seq<ZResult> {
    seq![
        Z_EINVAL,
        Z_EPARSE,
        Z_EIO,
        Z_ENETWORK,
        Z_ENULL,
        Z_EUNAVAILABLE,
        Z_EDESERIALIZE,
        Z_ESESSION_CLOSED,
        Z_EINVAL_MUTEX,
        Z_EBUSY_MUTEX,
        Z_EGENERIC,
    ]
}

/// Every status that is not a failure.
pub open spec fn success_codes() -> Seq<ZResult> {
    seq![Z_OK, Z_CHANNEL_DISCONNECTED, Z_CHANNEL_NODATA]
}

/// A failure code is negative, and no two conditions share a code: `rc < 0`
/// separates every failure from success and from the channel statuses.
pub proof fn lemma_codes_are_told_apart_by_sign()
    ensures
        forall|i: int| 0 <= i < error_codes().len() ==> #[trigger] error_codes()[i] < 0,
        forall|i: int| 0 <= i < success_codes().len() ==> #[trigger] success_codes()[i] >= 0,
        error_codes().no_duplicates(),
        success_codes().no_duplicates(),
{
}

} // verus!
