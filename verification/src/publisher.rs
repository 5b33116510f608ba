//! Publishers: a key expression and the options of a publication, declared once.

use vstd::prelude::*;

use crate::bytes::payload_of;
use crate::bytes::take_payload;
use crate::bytes::z_moved_bytes_t;
use crate::handle::gravestone;
use crate::handle::is_live;
use crate::handle::live;
use crate::handle::state_of;
use crate::handle::take;
use crate::handle::Moved;
use crate::handle::Owned;
use crate::keyexpr::keyexpr_mapping;
use crate::keyexpr::keyexpr_str;
use crate::keyexpr::text_of;
use crate::keyexpr::z_loaned_keyexpr_t;
use crate::keyexpr::KeyexprState;
use crate::matching::MatchingHold;
use crate::meta::run_of;
use crate::meta::same_hint;
use crate::meta::take_moved_encoding;
use crate::meta::z_moved_encoding_t;
use crate::meta::z_entity_global_id_t;
use crate::meta::z_source_info_t;
use crate::meta::z_timestamp_t;
use crate::meta::EncodingHint;
use crate::put::locality_from_c;
use crate::put::locality_of;
use crate::qos::CongestionControl;
use crate::qos::Locality;
use crate::qos::PublishOptions;
use crate::qos::SampleKind;
use crate::query::ask_outbound;
use crate::query::may_ask;
use crate::query::outbound_says;
use crate::result::ZResult;
use crate::result::Z_EINVAL;
use crate::result::Z_ENULL;
use crate::result::Z_OK;
use crate::session::z_loaned_session_t;

verus! {

/// What happens to a message when the way is congested, as a number.
pub type z_congestion_control_t = i32;

/// A message's priority, as a number.
pub type z_priority_t = i32;

/// A message's reliability, as a number.
pub type z_reliability_t = i32;

/// The message is not dropped.
pub const Z_CONGESTION_CONTROL_BLOCK: z_congestion_control_t = 0;

/// The message may be dropped. The default of a publication.
pub const Z_CONGESTION_CONTROL_DROP: z_congestion_control_t = 1;

/// Only the first message is not dropped.
pub const Z_CONGESTION_CONTROL_BLOCK_FIRST: z_congestion_control_t = 2;

/// The highest priority an application has.
pub const Z_PRIORITY_REAL_TIME: z_priority_t = 1;

/// The default priority.
pub const Z_PRIORITY_DATA: z_priority_t = 5;

/// The lowest priority.
pub const Z_PRIORITY_BACKGROUND: z_priority_t = 7;

/// Messages may get lost.
pub const Z_RELIABILITY_BEST_EFFORT: z_reliability_t = 0;

/// Messages do not get lost. The default.
pub const Z_RELIABILITY_RELIABLE: z_reliability_t = 1;

/// A locality, as a number.
pub type zc_locality_t = i32;

/// Any destination.
pub const ZC_LOCALITY_ANY: zc_locality_t = 0;

/// The session itself.
pub const ZC_LOCALITY_SESSION_LOCAL: zc_locality_t = 1;

/// Every destination but the session itself.
pub const ZC_LOCALITY_REMOTE: zc_locality_t = 2;

/// The default congestion control of a put.
pub fn z_internal_congestion_control_default_push() -> (c: z_congestion_control_t)
    ensures
        c == Z_CONGESTION_CONTROL_DROP,
{
    Z_CONGESTION_CONTROL_DROP
}

/// The default congestion control of a get.
pub fn z_internal_congestion_control_default_request() -> (c: z_congestion_control_t)
    ensures
        c == Z_CONGESTION_CONTROL_BLOCK,
{
    Z_CONGESTION_CONTROL_BLOCK
}

/// The default priority.
pub fn z_priority_default() -> (p: z_priority_t)
    ensures
        p == Z_PRIORITY_DATA,
{
    Z_PRIORITY_DATA
}

/// The default reliability.
pub fn z_reliability_default() -> (r: z_reliability_t)
    ensures
        r == Z_RELIABILITY_RELIABLE,
{
    Z_RELIABILITY_RELIABLE
}

/// The default locality.
pub fn zc_locality_default() -> (l: zc_locality_t)
    ensures
        l == ZC_LOCALITY_ANY,
{
    ZC_LOCALITY_ANY
}

/// The default locality, under its newer name.
pub fn z_locality_default() -> (l: zc_locality_t)
    ensures
        l == ZC_LOCALITY_ANY,
{
    zc_locality_default()
}

/// What a congestion control number stands for. The wire has one bit for it, so
/// blocking only the first message is blocking. A number that names none is the
/// default of a publication.
pub open spec fn congestion_of(c: z_congestion_control_t) -> CongestionControl {
    if c == Z_CONGESTION_CONTROL_BLOCK || c == Z_CONGESTION_CONTROL_BLOCK_FIRST {
        CongestionControl::Block
    } else {
        CongestionControl::Drop
    }
}

/// What a congestion control number stands for.
pub fn congestion_from_c(c: z_congestion_control_t) -> (congestion: CongestionControl)
    ensures
        congestion == congestion_of(c),
{
    if c == Z_CONGESTION_CONTROL_BLOCK || c == Z_CONGESTION_CONTROL_BLOCK_FIRST {
        CongestionControl::Block
    } else {
        CongestionControl::Drop
    }
}

/// The wire priority a number stands for. What does not fit the wire's three bits
/// is the default.
pub open spec fn priority_of(p: z_priority_t) -> u8 {
    if 0 <= p <= 7 {
        p as u8
    } else {
        Z_PRIORITY_DATA as u8
    }
}

/// The wire priority a number stands for.
pub fn priority_from_c(p: z_priority_t) -> (priority: u8)
    ensures
        priority == priority_of(p),
        priority <= 7,
{
    if p >= 0 && p <= 7 {
        p as u8
    } else {
        5
    }
}

/// How a value is deleted through a publisher.
#[derive(Clone, Copy)]
pub struct z_publisher_delete_options_t {
    pub timestamp: Option<z_timestamp_t>,
}

/// Fills in the default options of a deletion through a publisher.
pub fn z_publisher_delete_options_default(this_: Option<&mut z_publisher_delete_options_t>)
    ensures
        this_ matches Some(slot) ==> *final(slot) == (z_publisher_delete_options_t {
            timestamp: None,
        }),
{
    if let Some(slot) = this_ {
        *slot = z_publisher_delete_options_t { timestamp: None };
    }
}

/// How a publisher is declared.
pub struct z_publisher_options_t {
    /// The default encoding of what is published, consumed.
    pub encoding: z_moved_encoding_t,
    pub congestion_control: z_congestion_control_t,
    pub priority: z_priority_t,
    pub is_express: bool,
    /// Taken and not used: it is not on the wire.
    pub reliability: z_reliability_t,
    pub allowed_destination: zc_locality_t,
}

/// How a value is published through a publisher.
pub struct z_publisher_put_options_t {
    /// The value's encoding instead of the publisher's, consumed.
    pub encoding: z_moved_encoding_t,
    /// Taken and not used.
    pub timestamp: Option<z_timestamp_t>,
    pub source_info: Option<z_source_info_t>,
    /// The value's attachment, consumed.
    pub attachment: z_moved_bytes_t,
}

/// Fills in the default publisher options.
pub fn z_publisher_options_default(this_: Option<&mut z_publisher_options_t>)
    ensures
        this_ matches Some(slot) ==> *final(slot) == (z_publisher_options_t {
            encoding: Moved { _this: Owned { state: None } },
            congestion_control: Z_CONGESTION_CONTROL_DROP,
            priority: Z_PRIORITY_DATA,
            is_express: false,
            reliability: Z_RELIABILITY_RELIABLE,
            allowed_destination: ZC_LOCALITY_ANY,
        }),
{
    if let Some(slot) = this_ {
        *slot = z_publisher_options_t {
            encoding: Moved { _this: Owned { state: None } },
            congestion_control: Z_CONGESTION_CONTROL_DROP,
            priority: Z_PRIORITY_DATA,
            is_express: false,
            reliability: Z_RELIABILITY_RELIABLE,
            allowed_destination: ZC_LOCALITY_ANY,
        };
    }
}

/// Fills in the default options of a publication through a publisher.
pub fn z_publisher_put_options_default(this_: Option<&mut z_publisher_put_options_t>)
    ensures
        this_ matches Some(slot) ==> *final(slot) == (z_publisher_put_options_t {
            encoding: Moved { _this: Owned { state: None } },
            timestamp: None,
            source_info: None,
            attachment: Moved { _this: Owned { state: None } },
        }),
{
    if let Some(slot) = this_ {
        *slot = z_publisher_put_options_t {
            encoding: Moved { _this: Owned { state: None } },
            timestamp: None,
            source_info: None,
            attachment: Moved { _this: Owned { state: None } },
        };
    }
}

/// The options of a put with the given destination, priority, congestion control
/// and express flag, and nothing else.
pub open spec fn plain_put(
    allowed_destination: Locality,
    priority: u8,
    congestion_control: CongestionControl,
    express: bool,
) -> PublishOptions {
    PublishOptions {
        kind: SampleKind::Put,
        allowed_destination,
        priority,
        congestion_control,
        express,
        encoding: None,
        attachment: None,
        timestamp: None,
        source_info: None,
    }
}

/// What a put is published with where its caller gave no options: to every
/// destination but the session itself.
pub open spec fn default_put() -> PublishOptions {
    plain_put(
        Locality::Remote,
        priority_of(Z_PRIORITY_DATA),
        congestion_of(Z_CONGESTION_CONTROL_DROP),
        false,
    )
}

/// What a publisher without options publishes with.
pub fn publisher_put_options() -> (options: PublishOptions)
    ensures
        options == default_put(),
        options.wf(),
{
    PublishOptions {
        kind: SampleKind::Put,
        allowed_destination: Locality::Remote,
        priority: priority_from_c(Z_PRIORITY_DATA),
        congestion_control: congestion_from_c(Z_CONGESTION_CONTROL_DROP),
        express: false,
        encoding: None,
        attachment: None,
        timestamp: None,
        source_info: None,
    }
}

/// What a publisher's options come to.
pub open spec fn publisher_base(options: Option<z_publisher_options_t>) -> PublishOptions {
    match options {
        None => default_put(),
        Some(o) => PublishOptions {
            encoding: o.encoding._this.state,
            ..plain_put(
                locality_of(o.allowed_destination),
                priority_of(o.priority),
                congestion_of(o.congestion_control),
                o.is_express,
            )
        },
    }
}

/// Resolves a publisher's options. Their encoding is consumed.
pub fn resolve_publisher_options(options: Option<&mut z_publisher_options_t>) -> (base:
    PublishOptions)
    ensures
        base.wf(),
        match options {
            Some(o) => {
                &&& base == publisher_base(Some(*o))
                &&& *final(o) == (z_publisher_options_t {
                    encoding: Moved { _this: Owned { state: None } },
                    ..*o
                })
            },
            None => base == publisher_base(None),
        },
{
    let mut base = publisher_put_options();
    if let Some(o) = options {
        base.priority = priority_from_c(o.priority);
        base.congestion_control = congestion_from_c(o.congestion_control);
        base.express = o.is_express;
        base.allowed_destination = locality_from_c(o.allowed_destination);
        base.encoding = take_moved_encoding(&mut o.encoding);
    }
    base
}

/// What a single publication takes out of its options.
pub struct PutOverrides {
    pub encoding: Option<EncodingHint>,
    pub attachment: Option<Vec<u8>>,
    pub source_info: Option<z_source_info_t>,
}

/// What a single publication takes out of its options.
pub open spec fn overrides_in(options: Option<z_publisher_put_options_t>) -> PutOverrides {
    match options {
        Some(o) => PutOverrides {
            encoding: o.encoding._this.state,
            attachment: payload_of(o.attachment._this),
            source_info: o.source_info,
        },
        None => PutOverrides { encoding: None, attachment: None, source_info: None },
    }
}

/// Whether `out` is `base` with what `overrides` has in place of what `base` has.
pub open spec fn overridden(
    base: PublishOptions,
    overrides: PutOverrides,
    out: PublishOptions,
) -> bool {
    &&& out.kind == base.kind
    &&& out.allowed_destination == base.allowed_destination
    &&& out.priority == base.priority
    &&& out.congestion_control == base.congestion_control
    &&& out.express == base.express
    &&& out.timestamp == base.timestamp
    &&& same_hint(
        out.encoding,
        if overrides.encoding is Some {
            overrides.encoding
        } else {
            base.encoding
        },
    )
    &&& run_of(out.attachment) == run_of(
        if overrides.attachment is Some {
            overrides.attachment
        } else {
            base.attachment
        },
    )
    &&& out.source_info == (if overrides.source_info is Some {
        overrides.source_info
    } else {
        base.source_info
    })
}

impl PutOverrides {
    /// Takes what the options own, in any case.
    pub fn take(options: Option<&mut z_publisher_put_options_t>) -> (overrides: PutOverrides)
        ensures
            match options {
                Some(o) => {
                    &&& overrides == overrides_in(Some(*o))
                    &&& *final(o) == (z_publisher_put_options_t {
                        encoding: Moved { _this: Owned { state: None } },
                        attachment: Moved { _this: Owned { state: None } },
                        ..*o
                    })
                },
                None => overrides == overrides_in(None),
            },
    {
        match options {
            Some(o) => {
                let encoding = take_moved_encoding(&mut o.encoding);
                let attachment = take_payload(Some(&mut o.attachment));
                PutOverrides { encoding, attachment, source_info: o.source_info }
            },
            None => PutOverrides { encoding: None, attachment: None, source_info: None },
        }
    }

    /// Puts the overrides in place of what the publisher declared.
    pub fn apply(self, base: PublishOptions) -> (out: PublishOptions)
        ensures
            overridden(base, self, out),
    {
        let mut out = base;
        if self.encoding.is_some() {
            out.encoding = self.encoding;
        }
        if self.attachment.is_some() {
            out.attachment = self.attachment;
        }
        if self.source_info.is_some() {
            out.source_info = self.source_info;
        }
        out
    }
}

/// What stands behind a publisher handle.
pub struct PublisherState {
    pub shared: u64,
    pub keyexpr: z_loaned_keyexpr_t,
    pub bound: bool,
    /// The matching listener that lives and dies with the publisher.
    pub matching: Option<MatchingHold>,
    /// What every publication starts from.
    pub base: PublishOptions,
}

/// An owned publisher.
pub type z_owned_publisher_t = Owned<PublisherState>;

/// A borrowed publisher: the same slot.
pub type z_loaned_publisher_t = Owned<PublisherState>;

/// A publisher on its way to be consumed.
pub type z_moved_publisher_t = Moved<PublisherState>;

impl PublisherState {
    /// The publisher has a key expression.
    pub open spec fn wf(&self) -> bool {
        &&& self.keyexpr.state is Some
        &&& self.base.wf()
    }

    /// Records a matching listener. The one it replaces is to be retracted.
    pub fn attach_matching(&mut self, hold: MatchingHold) -> (retired: Option<MatchingHold>)
        ensures
            retired == old(self).matching,
            *final(self) == (PublisherState { matching: Some(hold), ..*old(self) }),
    {
        let retired = self.matching;
        self.matching = Some(hold);
        retired
    }
}

/// A publisher declared with these values, its key expression bound.
pub open spec fn is_publisher(
    slot: z_owned_publisher_t,
    session: u64,
    text: Seq<char>,
    mapping: Option<u64>,
    base: PublishOptions,
) -> bool {
    &&& slot.state is Some
    &&& slot.state->0.wf()
    &&& slot.state->0.shared == session
    &&& slot.state->0.bound
    &&& slot.state->0.matching is None
    &&& slot.state->0.keyexpr.state->0.keyexpr@ == text
    &&& slot.state->0.keyexpr.state->0.mapping == mapping
    &&& slot.state->0.base == base
}

/// The wire alias behind a nullable key expression.
pub open spec fn alias_of(ke: Option<&z_loaned_keyexpr_t>) -> Option<u64> {
    match live(ke) {
        Some(state) => state.mapping,
        None => None,
    }
}

/// Declares a publisher. It keeps the wire alias of its key expression. Its
/// options are read, and what they own consumed, only where it is declared.
pub fn z_declare_publisher<O: Fn(&str) -> bool>(
    session: Option<&z_loaned_session_t>,
    publisher: Option<&mut z_owned_publisher_t>,
    key_expr: Option<&z_loaned_keyexpr_t>,
    options: Option<&mut z_publisher_options_t>,
    outbound: &O,
) -> (code: ZResult)
    requires
        text_of(key_expr) matches Some(text) ==> may_ask(*outbound, text),
    ensures
        options matches Some(o) ==> *final(o) == (if code == Z_OK {
            z_publisher_options_t { encoding: Moved { _this: Owned { state: None } }, ..*o }
        } else {
            *o
        }),
        match publisher {
            None => code == Z_ENULL,
            Some(slot) => match (live(session), text_of(key_expr)) {
                (Some(state), Some(text)) => if code == Z_OK {
                    &&& outbound_says(*outbound, text, true)
                    &&& is_publisher(
                        *final(slot),
                        state.shared,
                        text,
                        alias_of(key_expr),
                        match options {
                            Some(o) => publisher_base(Some(*o)),
                            None => publisher_base(None),
                        },
                    )
                } else {
                    &&& code == Z_EINVAL
                    &&& outbound_says(*outbound, text, false)
                    &&& final(slot).state is None
                },
                _ => code == Z_ENULL && final(slot).state is None,
            },
        },
{
    let slot = match publisher {
        Some(slot) => slot,
        None => {
            return Z_ENULL;
        },
    };
    slot.state = None;
    match (state_of(session), keyexpr_str(key_expr)) {
        (Some(state), Some(text)) => {
            if !ask_outbound(text, outbound) {
                return Z_EINVAL;
            }
            let keyexpr = KeyexprState {
                keyexpr: text.to_owned(),
                mapping: keyexpr_mapping(key_expr),
            };
            let base = resolve_publisher_options(options);
            slot.state = Some(
                PublisherState {
                    shared: state.shared,
                    keyexpr: Owned::from_state(keyexpr),
                    bound: true,
                    matching: None,
                    base,
                },
            );
            Z_OK
        },
        _ => Z_ENULL,
    }
}

/// What a publication goes out under: a wire alias, or the text itself.
pub enum PublishTarget {
    Alias(u64),
    Key(String),
}

/// A publication to be made on a session.
pub struct PublishRequest {
    pub session: u64,
    pub target: PublishTarget,
    pub payload: Vec<u8>,
    pub options: PublishOptions,
}

/// Whether a publication goes out under the alias, where there is one, else under
/// the text.
pub open spec fn is_target(target: PublishTarget, text: Seq<char>, alias: Option<u64>) -> bool {
    match alias {
        Some(alias) => target == PublishTarget::Alias(alias),
        None => target is Key && target->Key_0@ == text,
    }
}

/// The key expression of a publisher as a target.
pub fn target_of(state: &KeyexprState) -> (target: PublishTarget)
    ensures
        is_target(target, state.keyexpr@, state.mapping),
{
    match state.mapping {
        Some(alias) => PublishTarget::Alias(alias),
        None => PublishTarget::Key(state.keyexpr.clone()),
    }
}

/// Whether a publisher's request carries `payload` with the publisher's options
/// overridden.
pub open spec fn is_put_request(
    request: PublishRequest,
    state: PublisherState,
    payload: Seq<u8>,
    overrides: PutOverrides,
) -> bool {
    &&& request.session == state.shared
    &&& is_target(
        request.target,
        state.keyexpr.state->0.keyexpr@,
        state.keyexpr.state->0.mapping,
    )
    &&& request.payload@ == payload
    &&& overridden(state.base, overrides, request.options)
}

/// What a publication returns, given whether it was sent.
pub open spec fn sent_code(sent: bool) -> ZResult {
    if sent {
        Z_OK
    } else {
        Z_EINVAL
    }
}

/// Whether `publish` was handed a put of this publisher and `code` tells whether
/// it was sent.
pub open spec fn put_published<P: FnOnce(PublishRequest) -> bool>(
    publish: P,
    state: PublisherState,
    payload: Seq<u8>,
    overrides: PutOverrides,
    code: ZResult,
) -> bool {
    exists|request: PublishRequest, sent: bool|
        is_put_request(request, state, payload, overrides) && #[trigger] call_ensures(
            publish,
            (request,),
            sent,
        ) && code == sent_code(sent)
}

/// Publishes a value through a publisher. The payload and what the options own
/// are consumed on every path. `publish` makes the session send.
pub fn z_publisher_put<P: FnOnce(PublishRequest) -> bool>(
    this_: Option<&z_loaned_publisher_t>,
    payload: Option<&mut z_moved_bytes_t>,
    options: Option<&mut z_publisher_put_options_t>,
    publish: P,
) -> (code: ZResult)
    requires
        live(this_) matches Some(state) ==> state.wf(),
        (live(this_), payload) matches (Some(state), Some(moved)) ==> (
        moved._this.state matches Some(bytes) ==> forall|r: PublishRequest|
            is_put_request(
                r,
                state,
                bytes.payload@,
                match options {
                    Some(o) => overrides_in(Some(*o)),
                    None => overrides_in(None),
                },
            ) ==> #[trigger] call_requires(publish, (r,))),
    ensures
        payload matches Some(moved) ==> final(moved)._this.state is None,
        options matches Some(o) ==> *final(o) == (z_publisher_put_options_t {
            encoding: Moved { _this: Owned { state: None } },
            attachment: Moved { _this: Owned { state: None } },
            ..*o
        }),
        match (live(this_), payload) {
            (Some(state), Some(moved)) => match moved._this.state {
                Some(bytes) => put_published(
                    publish,
                    state,
                    bytes.payload@,
                    match options {
                        Some(o) => overrides_in(Some(*o)),
                        None => overrides_in(None),
                    },
                    code,
                ),
                None => code == Z_ENULL,
            },
            _ => code == Z_ENULL,
        },
{
    let taken = take_payload(payload);
    let overrides = PutOverrides::take(options);
    match (state_of(this_), taken) {
        (Some(state), Some(payload)) => {
            let ghost given = (overrides, payload@);
            let base = state.base.copy();
            let ghost copied = base;
            let options = overrides.apply(base);
            let target = match &state.keyexpr.state {
                Some(ke) => target_of(ke),
                None => PublishTarget::Key(String::new()),
            };
            let request = PublishRequest { session: state.shared, target, payload, options };
            let ghost asked = request;
            proof {
                lemma_overridden_copy(state.base, copied, given.0, asked.options);
                assert(is_put_request(asked, *state, given.1, given.0));
            }
            let sent: bool = publish(request);
            let code = if sent {
                Z_OK
            } else {
                Z_EINVAL
            };
            assert(call_ensures(publish, (asked,), sent));
            code
        },
        _ => Z_ENULL,
    }
}

proof fn lemma_overridden_copy(
    base: PublishOptions,
    copied: PublishOptions,
    overrides: PutOverrides,
    out: PublishOptions,
)
    requires
        copied.same_as(&base),
        overridden(copied, overrides, out),
    ensures
        overridden(base, overrides, out),
{
}

/// Whether a publisher's request is a deletion with the publisher's options and,
/// where one is given, a timestamp.
pub open spec fn is_del_request(
    request: PublishRequest,
    state: PublisherState,
    timestamp: Option<z_timestamp_t>,
) -> bool {
    &&& request.session == state.shared
    &&& is_target(
        request.target,
        state.keyexpr.state->0.keyexpr@,
        state.keyexpr.state->0.mapping,
    )
    &&& request.payload@.len() == 0
    &&& request.options.same_as(
        &(PublishOptions {
            kind: SampleKind::Del,
            timestamp: if timestamp is Some {
                timestamp
            } else {
                state.base.timestamp
            },
            ..state.base
        }),
    )
}

/// Whether `publish` was handed a deletion of this publisher and `code` tells
/// whether it was sent.
pub open spec fn del_published<P: FnOnce(PublishRequest) -> bool>(
    publish: P,
    state: PublisherState,
    timestamp: Option<z_timestamp_t>,
    code: ZResult,
) -> bool {
    exists|request: PublishRequest, sent: bool|
        is_del_request(request, state, timestamp) && #[trigger] call_ensures(
            publish,
            (request,),
            sent,
        ) && code == sent_code(sent)
}

/// Deletes through a publisher. What it declared holds for its deletions as for
/// its puts; only the kind differs, and a timestamp may be given.
pub fn z_publisher_delete<P: FnOnce(PublishRequest) -> bool>(
    this_: Option<&z_loaned_publisher_t>,
    options: Option<&z_publisher_delete_options_t>,
    publish: P,
) -> (code: ZResult)
    requires
        live(this_) matches Some(state) ==> state.wf(),
        live(this_) matches Some(state) ==> forall|r: PublishRequest|
            is_del_request(
                r,
                state,
                match options {
                    Some(o) => o.timestamp,
                    None => None,
                },
            ) ==> #[trigger] call_requires(publish, (r,)),
    ensures
        match live(this_) {
            Some(state) => del_published(
                publish,
                state,
                match options {
                    Some(o) => o.timestamp,
                    None => None,
                },
                code,
            ),
            None => code == Z_ENULL,
        },
{
    match state_of(this_) {
        None => Z_ENULL,
        Some(state) => {
            let mut base = state.base.copy();
            base.kind = SampleKind::Del;
            if let Some(o) = options {
                if o.timestamp.is_some() {
                    base.timestamp = o.timestamp;
                }
            }
            let target = match &state.keyexpr.state {
                Some(ke) => target_of(ke),
                None => PublishTarget::Key(String::new()),
            };
            let request = PublishRequest {
                session: state.shared,
                target,
                payload: Vec::new(),
                options: base,
            };
            let ghost asked = request;
            let ghost timestamp = match options {
                Some(o) => o.timestamp,
                None => None,
            };
            assert(is_del_request(asked, *state, timestamp));
            let sent: bool = publish(request);
            let code = if sent {
                Z_OK
            } else {
                Z_EINVAL
            };
            assert(call_ensures(publish, (asked,), sent));
            code
        },
    }
}

/// The identity of a publisher, which its session gives by where the handle is. A
/// gravestone has none.
pub fn z_publisher_id<F: FnOnce(u64, usize) -> z_entity_global_id_t>(
    publisher: Option<&z_loaned_publisher_t>,
    address: usize,
    for_entity: F,
) -> (id: z_entity_global_id_t)
    requires
        live(publisher) matches Some(state) ==> call_requires(
            for_entity,
            (state.shared, address),
        ),
    ensures
        match live(publisher) {
            Some(state) => call_ensures(for_entity, (state.shared, address), id),
            None => id.is_empty(),
        },
{
    match state_of(publisher) {
        Some(state) => for_entity(state.shared, address),
        None => z_entity_global_id_t::empty(),
    }
}

/// A publisher's key expression.
pub fn z_publisher_keyexpr(this_: Option<&z_loaned_publisher_t>) -> (loaned: Option<
    &z_loaned_keyexpr_t,
>)
    ensures
        match loaned {
            Some(loaned) => live(this_) matches Some(state) && state.bound && *loaned
                == state.keyexpr,
            None => live(this_) is None || !live(this_)->0.bound,
        },
{
    match state_of(this_) {
        Some(state) if state.bound => Some(&state.keyexpr),
        _ => None,
    }
}

/// Undeclares a publisher. Nothing goes on the wire for it; the matching listener
/// it carried is to be retracted.
pub fn z_undeclare_publisher(this_: Option<&mut z_moved_publisher_t>) -> (r: (
    ZResult,
    Option<MatchingHold>,
))
    ensures
        r.0 == Z_OK,
        match this_ {
            Some(moved) => {
                &&& final(moved)._this.state is None
                &&& r.1 == (match moved._this.state {
                    Some(state) => state.matching,
                    None => None,
                })
            },
            None => r.1 is None,
        },
{
    match take(this_) {
        Some(state) => (Z_OK, state.matching),
        None => (Z_OK, None),
    }
}

/// Drops a publisher, which undeclares it.
pub fn z_publisher_drop(this_: Option<&mut z_moved_publisher_t>) -> (retired: Option<MatchingHold>)
    ensures
        match this_ {
            Some(moved) => {
                &&& final(moved)._this.state is None
                &&& retired == (match moved._this.state {
                    Some(state) => state.matching,
                    None => None,
                })
            },
            None => retired is None,
        },
{
    z_undeclare_publisher(this_).1
}

/// Borrows a publisher.
pub fn z_publisher_loan(this_: Option<&z_owned_publisher_t>) -> (loaned: Option<
    &z_loaned_publisher_t,
>)
    ensures
        loaned == this_,
{
    this_
}

/// Mutably borrows a publisher.
pub fn z_publisher_loan_mut(this_: Option<&mut z_owned_publisher_t>) -> (loaned: Option<
    &mut z_loaned_publisher_t,
>)
    ensures
        loaned == this_,
{
    this_
}

/// Whether a publisher is live.
pub fn z_internal_publisher_check(this_: Option<&z_owned_publisher_t>) -> (r: bool)
    ensures
        r == (live(this_) is Some),
{
    is_live(this_)
}

/// Makes a publisher the gravestone.
pub fn z_internal_publisher_null(this_: Option<&mut z_owned_publisher_t>)
    ensures
        this_ matches Some(slot) ==> final(slot).state is None,
{
    gravestone(this_)
}

} // verus!
