//! How a message is published, resolved from what a caller asked for.

use vstd::prelude::*;

use crate::meta::copy_hint;
use crate::meta::copy_run;
use crate::meta::run_of;
use crate::meta::same_hint;
use crate::meta::z_source_info_t;
use crate::meta::z_timestamp_t;
use crate::meta::EncodingHint;

verus! {

/// Where messages go to, or queries come from.
#[derive(Clone, Copy, Debug, PartialEq, Eq, Structural)]
pub enum Locality {
    Any,
    SessionLocal,
    Remote,
}

impl Locality {
    /// Whether the session itself is among the places.
    pub open spec fn local(self) -> bool {
        !(self is Remote)
    }

    /// Whether the session itself is among the places.
    pub fn allows_local(self) -> (r: bool)
        ensures
            r == self.local(),
    {
        !matches!(self, Locality::Remote)
    }
}

/// What happens to a message when the way is congested.
#[derive(Clone, Copy, Debug, PartialEq, Eq, Structural)]
pub enum CongestionControl {
    Block,
    Drop,
}

/// Whether a message puts or deletes a value.
#[derive(Clone, Copy, Debug, PartialEq, Eq, Structural)]
pub enum SampleKind {
    Put,
    Del,
}

/// Everything a publication is made with but its key and its payload.
pub struct PublishOptions {
    pub kind: SampleKind,
    pub allowed_destination: Locality,
    /// The wire priority: 0 to 7.
    pub priority: u8,
    pub congestion_control: CongestionControl,
    pub express: bool,
    pub encoding: Option<EncodingHint>,
    pub attachment: Option<Vec<u8>>,
    pub timestamp: Option<z_timestamp_t>,
    pub source_info: Option<z_source_info_t>,
}

impl PublishOptions {
    /// The priority fits the wire.
    pub open spec fn wf(&self) -> bool {
        self.priority <= 7
    }

    /// Whether two sets of options say the same.
    pub open spec fn same_as(&self, other: &PublishOptions) -> bool {
        &&& self.kind == other.kind
        &&& self.allowed_destination == other.allowed_destination
        &&& self.priority == other.priority
        &&& self.congestion_control == other.congestion_control
        &&& self.express == other.express
        &&& same_hint(self.encoding, other.encoding)
        &&& run_of(self.attachment) == run_of(other.attachment)
        &&& self.timestamp == other.timestamp
        &&& self.source_info == other.source_info
    }

    /// A copy.
    pub fn copy(&self) -> (other: PublishOptions)
        ensures
            other.same_as(self),
    {
        PublishOptions {
            kind: self.kind,
            allowed_destination: self.allowed_destination,
            priority: self.priority,
            congestion_control: self.congestion_control,
            express: self.express,
            encoding: copy_hint(&self.encoding),
            attachment: copy_run(&self.attachment),
            timestamp: self.timestamp,
            source_info: self.source_info,
        }
    }
}

} // verus!
