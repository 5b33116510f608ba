//! Samples: what a subscriber's callback receives.
//!
//! A delivered sample is copied into a marshal that lives as long as the call.
//! The marshal's accessors borrow from it, so it is bound once it has come to
//! rest and not before; a copy that outlives the call is bound anew.

use vstd::prelude::*;

use crate::bytes::copy_bytes;
use crate::bytes::z_loaned_bytes_t;
use crate::bytes::BytesState;
use crate::handle::gravestone;
use crate::handle::is_live;
use crate::handle::live;
use crate::handle::state_of;
use crate::handle::take;
use crate::handle::Moved;
use crate::handle::Owned;
use crate::keyexpr::keyexpr_str;
use crate::keyexpr::text_of;
use crate::keyexpr::z_loaned_keyexpr_t;
use crate::keyexpr::KeyexprState;
use crate::meta::copy_run;
use crate::meta::run_of;
use crate::meta::z_timestamp_t;
use crate::qos::SampleKind;
use crate::slice::SliceRepr;
use crate::string::view_string_over;
use crate::string::z_view_string_t;
use vstd::utf8::encode_utf8;

verus! {

/// How a sample was issued.
pub type z_sample_kind_t = i32;

/// It puts a value.
pub const Z_SAMPLE_KIND_PUT: z_sample_kind_t = 0;

/// It deletes one.
pub const Z_SAMPLE_KIND_DELETE: z_sample_kind_t = 1;

/// The number of a kind.
pub open spec fn kind_number(kind: SampleKind) -> z_sample_kind_t {
    match kind {
        SampleKind::Put => Z_SAMPLE_KIND_PUT,
        SampleKind::Del => Z_SAMPLE_KIND_DELETE,
    }
}

/// The number of a kind.
pub fn sample_kind_of(kind: SampleKind) -> (number: z_sample_kind_t)
    ensures
        number == kind_number(kind),
{
    match kind {
        SampleKind::Put => Z_SAMPLE_KIND_PUT,
        SampleKind::Del => Z_SAMPLE_KIND_DELETE,
    }
}

/// A sample as it is delivered.
pub struct SampleView {
    pub keyexpr: String,
    pub payload: Vec<u8>,
    pub kind: SampleKind,
    pub attachment: Option<Vec<u8>>,
    pub timestamp: Option<z_timestamp_t>,
}

/// The copy behind a borrowed sample.
pub struct SampleMarshal {
    pub keyexpr: z_loaned_keyexpr_t,
    pub payload: z_loaned_bytes_t,
    pub attachment: Option<z_loaned_bytes_t>,
    pub kind: z_sample_kind_t,
    pub timestamp: Option<z_timestamp_t>,
    pub bound: bool,
}

/// A borrowed sample.
pub type z_loaned_sample_t = SampleMarshal;

/// An owned sample.
pub type z_owned_sample_t = Owned<SampleMarshal>;

/// A sample on its way to be consumed.
pub type z_moved_sample_t = Moved<SampleMarshal>;

/// A live payload handle on `payload`.
pub open spec fn carries(slot: z_loaned_bytes_t, payload: Seq<u8>) -> bool {
    slot.state matches Some(state) && state.payload@ == payload
}

/// An optional payload handle on an optional run.
pub open spec fn carries_run(slot: Option<z_loaned_bytes_t>, run: Option<Seq<u8>>) -> bool {
    match (slot, run) {
        (Some(slot), Some(run)) => carries(slot, run),
        (None, None) => true,
        _ => false,
    }
}

/// Whether two payload handles hold the same bytes, or neither holds any.
pub open spec fn same_slot(a: z_loaned_bytes_t, b: z_loaned_bytes_t) -> bool {
    match (a.state, b.state) {
        (Some(x), Some(y)) => x.payload@ == y.payload@,
        (None, None) => true,
        _ => false,
    }
}

/// Whether two optional payload handles hold the same.
pub open spec fn same_optional_slot(
    a: Option<z_loaned_bytes_t>,
    b: Option<z_loaned_bytes_t>,
) -> bool {
    match (a, b) {
        (Some(a), Some(b)) => same_slot(a, b),
        (None, None) => true,
        _ => false,
    }
}

/// Whether two key expressions are the same text, the first without an alias.
pub open spec fn same_text_held(a: z_loaned_keyexpr_t, b: z_loaned_keyexpr_t) -> bool {
    match (a.state, b.state) {
        (Some(x), Some(y)) => x.keyexpr@ == y.keyexpr@ && x.mapping is None,
        (None, None) => true,
        _ => false,
    }
}

impl SampleMarshal {
    /// The marshal holds a key expression.
    pub open spec fn wf(&self) -> bool {
        self.keyexpr.state is Some
    }

    /// Whether the marshal holds these values.
    pub open spec fn holds(
        &self,
        keyexpr: Seq<char>,
        payload: Seq<u8>,
        attachment: Option<Seq<u8>>,
        kind: z_sample_kind_t,
        timestamp: Option<z_timestamp_t>,
    ) -> bool {
        &&& self.keyexpr.state matches Some(state) && state.keyexpr@ == keyexpr
            && state.mapping is None
        &&& carries(self.payload, payload)
        &&& carries_run(self.attachment, attachment)
        &&& self.kind == kind
        &&& self.timestamp == timestamp
    }

    /// Whether two marshals hold the same values.
    pub open spec fn same_values(&self, other: &SampleMarshal) -> bool {
        &&& same_text_held(self.keyexpr, other.keyexpr)
        &&& same_slot(self.payload, other.payload)
        &&& same_optional_slot(self.attachment, other.attachment)
        &&& self.kind == other.kind
        &&& self.timestamp == other.timestamp
    }

    /// Builds a marshal, unbound.
    pub fn new(
        keyexpr: String,
        payload: Vec<u8>,
        attachment: Option<Vec<u8>>,
        kind: z_sample_kind_t,
        timestamp: Option<z_timestamp_t>,
    ) -> (marshal: SampleMarshal)
        ensures
            marshal.wf(),
            marshal.holds(keyexpr@, payload@, run_of(attachment), kind, timestamp),
            !marshal.bound,
    {
        SampleMarshal {
            keyexpr: Owned::from_state(KeyexprState::new(keyexpr)),
            payload: Owned::from_state(BytesState::whole(payload)),
            attachment: match attachment {
                Some(run) => Some(Owned::from_state(BytesState::whole(run))),
                None => None,
            },
            kind,
            timestamp,
            bound: false,
        }
    }

    /// Binds the marshal: its accessors have something to borrow from now on.
    pub fn bind(&mut self)
        ensures
            *final(self) == (SampleMarshal { bound: true, ..*old(self) }),
    {
        self.bound = true;
    }

    /// The marshal as the borrowed sample.
    pub fn as_loaned(&self) -> (loaned: &z_loaned_sample_t)
        ensures
            *loaned == *self,
    {
        self
    }

    /// An independent copy, unbound, for a sample that outlives its call.
    pub fn deep_copy(&self) -> (copy: SampleMarshal)
        requires
            self.wf(),
        ensures
            copy.wf(),
            copy.same_values(self),
            !copy.bound,
    {
        SampleMarshal {
            keyexpr: match &self.keyexpr.state {
                Some(state) => Owned::from_state(KeyexprState::new(state.keyexpr.clone())),
                None => Owned::null_value(),
            },
            payload: copy_slot(&self.payload),
            attachment: match &self.attachment {
                Some(slot) => Some(copy_slot(slot)),
                None => None,
            },
            kind: self.kind,
            timestamp: self.timestamp,
            bound: false,
        }
    }
}

/// A copy of a payload handle.
pub fn copy_slot(slot: &z_loaned_bytes_t) -> (copy: z_loaned_bytes_t)
    ensures
        same_slot(copy, *slot),
{
    match &slot.state {
        Some(state) => Owned::from_state(BytesState::whole(copy_bytes(&state.payload))),
        None => Owned::null_value(),
    }
}

/// A sample's key expression.
pub fn z_sample_keyexpr(this_: Option<&z_loaned_sample_t>) -> (loaned: Option<&z_loaned_keyexpr_t>)
    ensures
        match loaned {
            Some(loaned) => this_ matches Some(m) && m.bound && *loaned == m.keyexpr,
            None => this_ is None || !this_->0.bound,
        },
{
    match this_ {
        Some(m) if m.bound => Some(&m.keyexpr),
        _ => None,
    }
}

/// A sample's payload.
pub fn z_sample_payload(this_: Option<&z_loaned_sample_t>) -> (loaned: Option<&z_loaned_bytes_t>)
    ensures
        match loaned {
            Some(loaned) => this_ matches Some(m) && m.bound && *loaned == m.payload,
            None => this_ is None || !this_->0.bound,
        },
{
    match this_ {
        Some(m) if m.bound => Some(&m.payload),
        _ => None,
    }
}

/// A sample's payload, to change it.
pub fn z_sample_payload_mut(this_: Option<&mut z_loaned_sample_t>) -> (loaned: Option<
    &mut z_loaned_bytes_t,
>)
    ensures
        match this_ {
            Some(m) => if m.bound {
                loaned matches Some(out) && *out == m.payload && *final(m) == (SampleMarshal {
                    payload: *final(out),
                    ..*m
                })
            } else {
                loaned is None && *final(m) == *m
            },
            None => loaned is None,
        },
{
    match this_ {
        Some(m) => {
            if m.bound {
                Some(&mut m.payload)
            } else {
                None
            }
        },
        None => None,
    }
}

/// How a sample was issued. A dead sample reads as a put.
pub fn z_sample_kind(this_: Option<&z_loaned_sample_t>) -> (kind: z_sample_kind_t)
    ensures
        kind == (match this_ {
            Some(m) => m.kind,
            None => Z_SAMPLE_KIND_PUT,
        }),
{
    match this_ {
        Some(m) => m.kind,
        None => Z_SAMPLE_KIND_PUT,
    }
}

/// A sample's attachment, or nothing where it carries none: no attachment and an
/// empty one are different events.
pub fn z_sample_attachment(this_: Option<&z_loaned_sample_t>) -> (loaned: Option<&z_loaned_bytes_t>)
    ensures
        match loaned {
            Some(loaned) => this_ matches Some(m) && m.bound && m.attachment == Some(*loaned),
            None => this_ is None || !this_->0.bound || this_->0.attachment is None,
        },
{
    match this_ {
        Some(m) if m.bound => m.attachment.as_ref(),
        _ => None,
    }
}

/// A sample's timestamp, or nothing where it carries none.
pub fn z_sample_timestamp(this_: Option<&z_loaned_sample_t>) -> (timestamp: Option<&z_timestamp_t>)
    ensures
        match timestamp {
            Some(timestamp) => this_ matches Some(m) && m.timestamp == Some(*timestamp),
            None => this_ is None || this_->0.timestamp is None,
        },
{
    match this_ {
        Some(m) => m.timestamp.as_ref(),
        None => None,
    }
}

/// Views a key expression as a string. A dead one leaves the gravestone.
pub fn z_keyexpr_as_view_string<'a>(
    this_: Option<&'a z_loaned_keyexpr_t>,
    out_string: Option<&mut z_view_string_t<'a>>,
)
    ensures
        out_string matches Some(out) ==> match text_of(this_) {
            Some(text) => *final(out) is Viewed && final(out).bytes() == Some(encode_utf8(text)),
            None => *final(out) is Null,
        },
{
    if let Some(out) = out_string {
        *out = match keyexpr_str(this_) {
            Some(text) => view_string_over(text),
            None => SliceRepr::Null,
        };
    }
}

/// Whether a marshal holds what a sample was delivered with, and is bound.
pub open spec fn marshals(view: &SampleView, marshal: SampleMarshal) -> bool {
    &&& marshal.wf()
    &&& marshal.bound
    &&& marshal.holds(
        view.keyexpr@,
        view.payload@,
        run_of(view.attachment),
        kind_number(view.kind),
        view.timestamp,
    )
}

/// The bound marshal of a delivered sample.
pub fn marshal(view: &SampleView) -> (marshal: SampleMarshal)
    ensures
        marshals(view, marshal),
{
    let mut marshal = SampleMarshal::new(
        view.keyexpr.clone(),
        copy_bytes(&view.payload),
        copy_run(&view.attachment),
        sample_kind_of(view.kind),
        view.timestamp,
    );
    marshal.bind();
    marshal
}

/// Whether `body`, given a marshal of `view`, may return `r`.
pub open spec fn ran_with<R, F: FnOnce(&z_loaned_sample_t) -> R>(
    view: &SampleView,
    body: F,
    r: R,
) -> bool {
    exists|m: SampleMarshal| marshals(view, m) && #[trigger] call_ensures(body, (&m,), r)
}

/// Marshals a delivered sample and runs `body` with it.
pub fn with_marshalled<R, F: FnOnce(&z_loaned_sample_t) -> R>(view: &SampleView, body: F) -> (r: R)
    requires
        forall|m: &z_loaned_sample_t|
            marshals(view, *m) ==> #[trigger] call_requires(body, (m,)),
    ensures
        ran_with(view, body, r),
{
    let marshal = marshal(view);
    let r = body(marshal.as_loaned());
    assert(call_ensures(body, (&marshal,), r));
    r
}

/// Copies a borrowed sample so that it outlives its call, bound.
pub fn escape_sample(src: Option<&z_loaned_sample_t>) -> (escaped: Option<SampleMarshal>)
    requires
        src matches Some(m) ==> m.wf(),
    ensures
        match src {
            Some(m) => escaped matches Some(copy) && copy.wf() && copy.bound && copy.same_values(m),
            None => escaped is None,
        },
{
    match src {
        Some(m) => {
            let mut copy = m.deep_copy();
            copy.bind();
            Some(copy)
        },
        None => None,
    }
}

/// Borrows an owned sample.
pub fn z_sample_loan(this_: Option<&z_owned_sample_t>) -> (loaned: Option<&z_loaned_sample_t>)
    ensures
        match loaned {
            Some(m) => live(this_) == Some(*m),
            None => live(this_) is None,
        },
{
    state_of(this_)
}

/// Copies a borrowed sample into an owned one. A copy of a null sample is a
/// gravestone.
pub fn z_sample_clone(dst: Option<&mut z_owned_sample_t>, this_: Option<&z_loaned_sample_t>)
    requires
        this_ matches Some(m) ==> m.wf(),
    ensures
        dst matches Some(slot) ==> match this_ {
            Some(m) => final(slot).state matches Some(copy) && copy.wf() && copy.bound
                && copy.same_values(m),
            None => final(slot).state is None,
        },
{
    if let Some(slot) = dst {
        slot.state = escape_sample(this_);
    }
}

/// Whether an owned sample is live.
pub fn z_internal_sample_check(this_: Option<&z_owned_sample_t>) -> (r: bool)
    ensures
        r == (live(this_) is Some),
{
    is_live(this_)
}

/// Makes an owned sample the gravestone.
pub fn z_internal_sample_null(this_: Option<&mut z_owned_sample_t>)
    ensures
        this_ matches Some(slot) ==> final(slot).state is None,
{
    gravestone(this_)
}

/// Frees an owned sample.
pub fn z_sample_drop(this_: Option<&mut z_moved_sample_t>)
    ensures
        this_ matches Some(moved) ==> final(moved)._this.state is None,
{
    let _ = take(this_);
}

} // verus!
