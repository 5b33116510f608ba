//! Publishing on a session.

use vstd::prelude::*;

use crate::bytes::payload_of;
use crate::bytes::take_payload;
use crate::bytes::z_moved_bytes_t;
use crate::handle::live;
use crate::handle::state_of;
use crate::handle::Moved;
use crate::handle::Owned;
use crate::keyexpr::keyexpr_str;
use crate::keyexpr::text_of;
use crate::keyexpr::z_loaned_keyexpr_t;
use crate::meta::moved_encoding_hint;
use crate::meta::same_hint;
use crate::meta::z_moved_encoding_t;
use crate::meta::z_source_info_t;
use crate::meta::z_timestamp_t;
use crate::publisher::congestion_from_c;
use crate::publisher::congestion_of;
use crate::publisher::default_put;
use crate::publisher::plain_put;
use crate::publisher::priority_from_c;
use crate::publisher::priority_of;
use crate::publisher::sent_code;
use crate::publisher::z_congestion_control_t;
use crate::publisher::z_priority_t;
use crate::publisher::z_reliability_t;
use crate::publisher::zc_locality_t;
use crate::publisher::PublishRequest;
use crate::publisher::PublishTarget;
use crate::publisher::ZC_LOCALITY_ANY;
use crate::publisher::ZC_LOCALITY_REMOTE;
use crate::publisher::ZC_LOCALITY_SESSION_LOCAL;
use crate::publisher::Z_CONGESTION_CONTROL_DROP;
use crate::publisher::Z_PRIORITY_DATA;
use crate::publisher::Z_RELIABILITY_RELIABLE;
use crate::qos::Locality;
use crate::qos::PublishOptions;
use crate::qos::SampleKind;
use crate::result::ZResult;
use crate::result::Z_EINVAL;
use crate::result::Z_ENULL;
use crate::result::Z_OK;
use crate::session::z_loaned_session_t;

verus! {

/// What a locality number stands for. A number that names none is the default.
pub open spec fn locality_of(c: zc_locality_t) -> Locality {
    if c == ZC_LOCALITY_SESSION_LOCAL {
        Locality::SessionLocal
    } else if c == ZC_LOCALITY_REMOTE {
        Locality::Remote
    } else {
        Locality::Any
    }
}

/// What a locality number stands for.
pub fn locality_from_c(c: zc_locality_t) -> (locality: Locality)
    ensures
        locality == locality_of(c),
{
    if c == ZC_LOCALITY_SESSION_LOCAL {
        Locality::SessionLocal
    } else if c == ZC_LOCALITY_REMOTE {
        Locality::Remote
    } else {
        Locality::Any
    }
}

/// How a value is put.
pub struct z_put_options_t {
    /// The value's encoding. It is read and left with the caller.
    pub encoding: z_moved_encoding_t,
    pub congestion_control: z_congestion_control_t,
    pub priority: z_priority_t,
    pub is_express: bool,
    /// Taken and not used.
    pub timestamp: Option<z_timestamp_t>,
    /// Taken and not used: it is not on the wire.
    pub reliability: z_reliability_t,
    /// Taken and not used: every put goes to the others only.
    pub allowed_destination: zc_locality_t,
    /// Taken and not used.
    pub source_info: Option<z_source_info_t>,
    /// The value's attachment, consumed.
    pub attachment: z_moved_bytes_t,
}

/// How a value is deleted. A deletion has no encoding and no attachment.
#[derive(Clone, Copy)]
pub struct z_delete_options_t {
    pub congestion_control: z_congestion_control_t,
    pub priority: z_priority_t,
    pub is_express: bool,
    /// Taken and not used.
    pub timestamp: Option<z_timestamp_t>,
    /// Taken and not used: it is not on the wire.
    pub reliability: z_reliability_t,
    /// Taken and not used: every deletion goes to the others only.
    pub allowed_destination: zc_locality_t,
}

/// What a put without options is published with.
pub fn put_options() -> (options: PublishOptions)
    ensures
        options == default_put(),
        options.wf(),
{
    PublishOptions {
        kind: SampleKind::Put,
        allowed_destination: Locality::Remote,
        priority: priority_from_c(Z_PRIORITY_DATA),
        congestion_control: congestion_from_c(Z_CONGESTION_CONTROL_DROP),
        express: false,
        encoding: None,
        attachment: None,
        timestamp: None,
        source_info: None,
    }
}

/// What a deletion without options is published with.
pub fn delete_options() -> (options: PublishOptions)
    ensures
        options == (PublishOptions { kind: SampleKind::Del, ..default_put() }),
        options.wf(),
{
    let mut options = put_options();
    options.kind = SampleKind::Del;
    options
}

/// Whether `out` is what a put's options come to.
pub open spec fn is_resolved_put(options: Option<z_put_options_t>, out: PublishOptions) -> bool {
    match options {
        None => out == default_put(),
        Some(o) => {
            &&& same_hint(out.encoding, o.encoding._this.state)
            &&& out == (PublishOptions {
                encoding: out.encoding,
                attachment: payload_of(o.attachment._this),
                ..plain_put(
                    Locality::Remote,
                    priority_of(o.priority),
                    congestion_of(o.congestion_control),
                    o.is_express,
                )
            })
        },
    }
}

/// Options with what they owned consumed.
pub open spec fn consumed_put_options(o: z_put_options_t) -> z_put_options_t {
    z_put_options_t { attachment: Moved { _this: Owned { state: None } }, ..o }
}

/// Resolves a put's options. Their attachment is consumed.
pub fn resolve_put_options(options: Option<&mut z_put_options_t>) -> (out: PublishOptions)
    ensures
        out.wf(),
        match options {
            Some(o) => is_resolved_put(Some(*o), out) && *final(o) == consumed_put_options(*o),
            None => is_resolved_put(None, out),
        },
{
    let mut out = put_options();
    if let Some(o) = options {
        out.priority = priority_from_c(o.priority);
        out.congestion_control = congestion_from_c(o.congestion_control);
        out.express = o.is_express;
        out.encoding = moved_encoding_hint(&o.encoding);
        out.attachment = take_payload(Some(&mut o.attachment));
    }
    out
}

/// What a deletion's options come to.
pub open spec fn resolved_delete(options: Option<&z_delete_options_t>) -> PublishOptions {
    match options {
        None => PublishOptions { kind: SampleKind::Del, ..default_put() },
        Some(o) => PublishOptions {
            kind: SampleKind::Del,
            ..plain_put(
                Locality::Remote,
                priority_of(o.priority),
                congestion_of(o.congestion_control),
                o.is_express,
            )
        },
    }
}

/// Resolves a deletion's options.
pub fn resolve_delete_options(options: Option<&z_delete_options_t>) -> (out: PublishOptions)
    ensures
        out.wf(),
        out == resolved_delete(options),
{
    let mut out = delete_options();
    if let Some(o) = options {
        out.priority = priority_from_c(o.priority);
        out.congestion_control = congestion_from_c(o.congestion_control);
        out.express = o.is_express;
    }
    out
}

/// No publication of a session reaches the session itself, whatever its caller
/// asks for.
pub proof fn lemma_every_publication_is_remote(
    put: Option<z_put_options_t>,
    resolved: PublishOptions,
    delete: Option<&z_delete_options_t>,
)
    requires
        is_resolved_put(put, resolved),
    ensures
        !resolved.allowed_destination.local(),
        !resolved_delete(delete).allowed_destination.local(),
        !default_put().allowed_destination.local(),
{
}

/// Fills in the default put options.
pub fn z_put_options_default(this_: Option<&mut z_put_options_t>)
    ensures
        this_ matches Some(slot) ==> *final(slot) == (z_put_options_t {
            encoding: Moved { _this: Owned { state: None } },
            congestion_control: Z_CONGESTION_CONTROL_DROP,
            priority: Z_PRIORITY_DATA,
            is_express: false,
            timestamp: None,
            reliability: Z_RELIABILITY_RELIABLE,
            allowed_destination: ZC_LOCALITY_ANY,
            source_info: None,
            attachment: Moved { _this: Owned { state: None } },
        }),
{
    if let Some(slot) = this_ {
        *slot = z_put_options_t {
            encoding: Moved { _this: Owned { state: None } },
            congestion_control: Z_CONGESTION_CONTROL_DROP,
            priority: Z_PRIORITY_DATA,
            is_express: false,
            timestamp: None,
            reliability: Z_RELIABILITY_RELIABLE,
            allowed_destination: ZC_LOCALITY_ANY,
            source_info: None,
            attachment: Moved { _this: Owned { state: None } },
        };
    }
}

/// Fills in the default delete options.
pub fn z_delete_options_default(this_: Option<&mut z_delete_options_t>)
    ensures
        this_ matches Some(slot) ==> *final(slot) == (z_delete_options_t {
            congestion_control: Z_CONGESTION_CONTROL_DROP,
            priority: Z_PRIORITY_DATA,
            is_express: false,
            timestamp: None,
            reliability: Z_RELIABILITY_RELIABLE,
            allowed_destination: ZC_LOCALITY_ANY,
        }),
{
    if let Some(slot) = this_ {
        *slot = z_delete_options_t {
            congestion_control: Z_CONGESTION_CONTROL_DROP,
            priority: Z_PRIORITY_DATA,
            is_express: false,
            timestamp: None,
            reliability: Z_RELIABILITY_RELIABLE,
            allowed_destination: ZC_LOCALITY_ANY,
        };
    }
}

/// Whether a request puts `payload` on a session under `text`.
pub open spec fn is_session_put(
    request: PublishRequest,
    session: u64,
    text: Seq<char>,
    payload: Seq<u8>,
    options: Option<z_put_options_t>,
) -> bool {
    &&& request.session == session
    &&& request.target is Key
    &&& request.target->Key_0@ == text
    &&& request.payload@ == payload
    &&& is_resolved_put(options, request.options)
}

/// Whether `publish` was handed this put and `code` tells whether it was sent.
pub open spec fn session_put<P: FnOnce(PublishRequest) -> bool>(
    publish: P,
    session: u64,
    text: Seq<char>,
    payload: Seq<u8>,
    options: Option<z_put_options_t>,
    code: ZResult,
) -> bool {
    exists|request: PublishRequest, sent: bool|
        is_session_put(request, session, text, payload, options) && #[trigger] call_ensures(
            publish,
            (request,),
            sent,
        ) && code == sent_code(sent)
}

/// Puts a value on a session. The payload and what the options own are consumed
/// on every path. `publish` makes the session send.
pub fn z_put<P: FnOnce(PublishRequest) -> bool>(
    session: Option<&z_loaned_session_t>,
    key_expr: Option<&z_loaned_keyexpr_t>,
    payload: Option<&mut z_moved_bytes_t>,
    options: Option<&mut z_put_options_t>,
    publish: P,
) -> (code: ZResult)
    requires
        (live(session), text_of(key_expr), payload) matches (
            Some(state),
            Some(text),
            Some(moved),
        ) ==> (moved._this.state matches Some(bytes) ==> forall|r: PublishRequest|
            is_session_put(
                r,
                state.shared,
                text,
                bytes.payload@,
                match options {
                    Some(o) => Some(*o),
                    None => None,
                },
            ) ==> #[trigger] call_requires(publish, (r,))),
    ensures
        payload matches Some(moved) ==> final(moved)._this.state is None,
        options matches Some(o) ==> *final(o) == consumed_put_options(*o),
        match (live(session), text_of(key_expr), payload) {
            (Some(state), Some(text), Some(moved)) => match moved._this.state {
                Some(bytes) => session_put(
                    publish,
                    state.shared,
                    text,
                    bytes.payload@,
                    match options {
                        Some(o) => Some(*o),
                        None => None,
                    },
                    code,
                ),
                None => code == Z_ENULL,
            },
            _ => code == Z_ENULL,
        },
{
    let taken = take_payload(payload);
    let resolved = resolve_put_options(options);
    match (state_of(session), keyexpr_str(key_expr), taken) {
        (Some(state), Some(text), Some(payload)) => {
            let request = PublishRequest {
                session: state.shared,
                target: PublishTarget::Key(text.to_owned()),
                payload,
                options: resolved,
            };
            let ghost asked = request;
            let sent: bool = publish(request);
            let code = if sent {
                Z_OK
            } else {
                Z_EINVAL
            };
            assert(call_ensures(publish, (asked,), sent));
            code
        },
        _ => Z_ENULL,
    }
}

/// Whether a request deletes on a session under `text`.
pub open spec fn is_session_delete(
    request: PublishRequest,
    session: u64,
    text: Seq<char>,
    options: Option<&z_delete_options_t>,
) -> bool {
    &&& request.session == session
    &&& request.target is Key
    &&& request.target->Key_0@ == text
    &&& request.payload@.len() == 0
    &&& request.options == resolved_delete(options)
}

/// Whether `publish` was handed this deletion and `code` tells whether it was
/// sent.
pub open spec fn session_delete<P: FnOnce(PublishRequest) -> bool>(
    publish: P,
    session: u64,
    text: Seq<char>,
    options: Option<&z_delete_options_t>,
    code: ZResult,
) -> bool {
    exists|request: PublishRequest, sent: bool|
        is_session_delete(request, session, text, options) && #[trigger] call_ensures(
            publish,
            (request,),
            sent,
        ) && code == sent_code(sent)
}

/// Deletes on a session. There is no payload to go with it.
pub fn z_delete<P: FnOnce(PublishRequest) -> bool>(
    session: Option<&z_loaned_session_t>,
    key_expr: Option<&z_loaned_keyexpr_t>,
    options: Option<&z_delete_options_t>,
    publish: P,
) -> (code: ZResult)
    requires
        (live(session), text_of(key_expr)) matches (Some(state), Some(text)) ==> forall|
            r: PublishRequest,
        |
            is_session_delete(r, state.shared, text, options) ==> #[trigger] call_requires(
                publish,
                (r,),
            ),
    ensures
        match (live(session), text_of(key_expr)) {
            (Some(state), Some(text)) => session_delete(
                publish,
                state.shared,
                text,
                options,
                code,
            ),
            _ => code == Z_ENULL,
        },
{
    match (state_of(session), keyexpr_str(key_expr)) {
        (Some(state), Some(text)) => {
            let request = PublishRequest {
                session: state.shared,
                target: PublishTarget::Key(text.to_owned()),
                payload: Vec::new(),
                options: resolve_delete_options(options),
            };
            let ghost asked = request;
            assert(is_session_delete(asked, state.shared, text@, options));
            let sent: bool = publish(request);
            let code = if sent {
                Z_OK
            } else {
                Z_EINVAL
            };
            assert(call_ensures(publish, (asked,), sent));
            code
        },
        _ => Z_ENULL,
    }
}

} // verus!
