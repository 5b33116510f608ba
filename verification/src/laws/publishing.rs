//! Laws of publishing.

use vstd::prelude::*;

use crate::bytes::z_moved_bytes_t;
use crate::keyexpr::z_loaned_keyexpr_t;
use crate::matching::MatchingHold;
use crate::meta::same_hint;
use crate::meta::z_entity_global_id_t;
use crate::publisher::congestion_from_c;
use crate::publisher::priority_from_c;
use crate::publisher::z_congestion_control_t;
use crate::publisher::z_declare_publisher;
use crate::publisher::z_internal_congestion_control_default_push;
use crate::publisher::z_internal_congestion_control_default_request;
use crate::publisher::z_loaned_publisher_t;
use crate::publisher::z_locality_default;
use crate::publisher::z_moved_publisher_t;
use crate::publisher::z_owned_publisher_t;
use crate::publisher::z_priority_default;
use crate::publisher::z_priority_t;
use crate::publisher::z_publisher_delete;
use crate::publisher::z_publisher_delete_options_t;
use crate::publisher::z_publisher_drop;
use crate::publisher::z_publisher_id;
use crate::publisher::z_publisher_keyexpr;
use crate::publisher::z_publisher_options_default;
use crate::publisher::z_publisher_options_t;
use crate::publisher::z_publisher_put;
use crate::publisher::z_publisher_put_options_default;
use crate::publisher::z_publisher_put_options_t;
use crate::publisher::z_reliability_default;
use crate::publisher::z_reliability_t;
use crate::publisher::z_undeclare_publisher;
use crate::publisher::zc_locality_default;
use crate::publisher::zc_locality_t;
use crate::publisher::PublishRequest;
use crate::publisher::PublishTarget;
use crate::put::locality_from_c;
use crate::put::resolve_delete_options;
use crate::put::resolve_put_options;
use crate::put::z_delete;
use crate::put::z_delete_options_default;
use crate::put::z_delete_options_t;
use crate::put::z_put;
use crate::put::z_put_options_default;
use crate::put::z_put_options_t;
use crate::qos::CongestionControl;
use crate::qos::Locality;
use crate::qos::PublishOptions;
use crate::qos::SampleKind;
use crate::result::ZResult;
use crate::session::z_loaned_session_t;

verus! {

/// Every priority number that fits the wire's three bits is its own wire priority,
/// so different priorities stay different and keep their order. Any other number
/// is the default priority.
pub proof fn lemma_a_priority_is_its_own_wire_priority(
    p: z_priority_t,
    q: z_priority_t,
    wire: u8,
    other: u8,
)
    requires
        call_ensures(priority_from_c, (p,), wire),
        call_ensures(priority_from_c, (q,), other),
    ensures
        0 <= p <= 7 ==> wire == p,
        p < 0 || p > 7 ==> wire == 5,
        0 <= p < q <= 7 ==> wire < other,
        wire <= 7,
{
}

/// A message is not dropped exactly where blocking was asked for, be it for every
/// message or for the first.
pub proof fn lemma_only_a_blocking_message_is_kept(
    c: z_congestion_control_t,
    congestion: CongestionControl,
)
    requires
        call_ensures(congestion_from_c, (c,), congestion),
    ensures
        congestion == CongestionControl::Block <==> c == 0 || c == 2,
        congestion == CongestionControl::Drop <==> c != 0 && c != 2,
{
}

/// The named localities stand for themselves, and any other number for every
/// place.
pub proof fn lemma_a_locality_number_names_its_places(c: zc_locality_t, locality: Locality)
    requires
        call_ensures(locality_from_c, (c,), locality),
    ensures
        locality == Locality::SessionLocal <==> c == 1,
        locality == Locality::Remote <==> c == 2,
        locality == Locality::Any <==> c != 1 && c != 2,
{
}

/// What a caller gets who asks for the defaults: data priority, reliable, any
/// place; a put may be dropped and a get may not.
pub proof fn lemma_the_defaults_have_their_numbers(
    push: z_congestion_control_t,
    request: z_congestion_control_t,
    priority: z_priority_t,
    reliability: z_reliability_t,
    locality: zc_locality_t,
    newer: zc_locality_t,
)
    requires
        call_ensures(z_internal_congestion_control_default_push, (), push),
        call_ensures(z_internal_congestion_control_default_request, (), request),
        call_ensures(z_priority_default, (), priority),
        call_ensures(z_reliability_default, (), reliability),
        call_ensures(zc_locality_default, (), locality),
        call_ensures(z_locality_default, (), newer),
    ensures
        push == 1,
        request == 0,
        priority == 5,
        reliability == 1,
        locality == 0,
        newer == 0,
{
}

/// Default options own nothing and have the default numbers.
pub proof fn lemma_default_options_have_the_default_numbers(
    publisher: &mut z_publisher_options_t,
    publisher_put: &mut z_publisher_put_options_t,
    put: &mut z_put_options_t,
    delete: &mut z_delete_options_t,
)
    requires
        call_ensures(z_publisher_options_default, (Some(publisher),), ()),
        call_ensures(z_publisher_put_options_default, (Some(publisher_put),), ()),
        call_ensures(z_put_options_default, (Some(put),), ()),
        call_ensures(z_delete_options_default, (Some(delete),), ()),
    ensures
        final(publisher).encoding._this.state is None,
        final(publisher).congestion_control == 1,
        final(publisher).priority == 5,
        !final(publisher).is_express,
        final(publisher).reliability == 1,
        final(publisher).allowed_destination == 0,
        final(publisher_put).encoding._this.state is None,
        final(publisher_put).timestamp is None,
        final(publisher_put).source_info is None,
        final(publisher_put).attachment._this.state is None,
        final(put).encoding._this.state is None,
        final(put).congestion_control == 1,
        final(put).priority == 5,
        !final(put).is_express,
        final(put).timestamp is None,
        final(put).reliability == 1,
        final(put).allowed_destination == 0,
        final(put).source_info is None,
        final(put).attachment._this.state is None,
        final(delete).congestion_control == 1,
        final(delete).priority == 5,
        !final(delete).is_express,
        final(delete).timestamp is None,
        final(delete).reliability == 1,
        final(delete).allowed_destination == 0,
{
}

/// A put's options come out as they were asked for. The put goes to the others
/// only, its encoding stays with the caller and its attachment does not.
pub proof fn lemma_put_options_are_resolved_as_asked(
    options: Option<&mut z_put_options_t>,
    out: PublishOptions,
)
    requires
        call_ensures(resolve_put_options, (options,), out),
    ensures
        out.kind == SampleKind::Put,
        out.allowed_destination == Locality::Remote,
        out.timestamp is None,
        out.source_info is None,
        match options {
            Some(o) => {
                &&& 0 <= o.priority <= 7 ==> out.priority == o.priority
                &&& o.priority < 0 || o.priority > 7 ==> out.priority == 5
                &&& out.congestion_control == CongestionControl::Block <==> o.congestion_control
                    == 0 || o.congestion_control == 2
                &&& out.express == o.is_express
                &&& same_hint(out.encoding, o.encoding._this.state)
                &&& out.attachment is Some == o.attachment._this.state is Some
                &&& out.attachment is Some ==> out.attachment->0@
                    == o.attachment._this.state->0.payload@
                &&& final(o).attachment._this.state is None
                &&& final(o).encoding == o.encoding
                &&& final(o).priority == o.priority
                &&& final(o).congestion_control == o.congestion_control
                &&& final(o).is_express == o.is_express
            },
            None => {
                &&& out.priority == 5
                &&& out.congestion_control == CongestionControl::Drop
                &&& !out.express
                &&& out.encoding is None
                &&& out.attachment is None
            },
        },
{
}

/// A deletion's options come out as they were asked for. It goes to the others
/// only and carries nothing.
pub proof fn lemma_delete_options_are_resolved_as_asked(
    options: Option<&z_delete_options_t>,
    out: PublishOptions,
)
    requires
        call_ensures(resolve_delete_options, (options,), out),
    ensures
        out.kind == SampleKind::Del,
        out.allowed_destination == Locality::Remote,
        out.encoding is None && out.attachment is None,
        out.timestamp is None && out.source_info is None,
        match options {
            Some(o) => {
                &&& 0 <= o.priority <= 7 ==> out.priority == o.priority
                &&& o.priority < 0 || o.priority > 7 ==> out.priority == 5
                &&& out.congestion_control == CongestionControl::Block <==> o.congestion_control
                    == 0 || o.congestion_control == 2
                &&& out.express == o.is_express
            },
            None => out.priority == 5 && out.congestion_control == CongestionControl::Drop
                && !out.express,
        },
{
}

/// A put on a session sends its payload once, under its text, with the options that
/// were asked for, and tells whether it was sent. Without a live session, key
/// expression or payload nothing is sent. The payload is consumed either way.
pub proof fn lemma_a_put_sends_what_it_was_given<P: FnOnce(PublishRequest) -> bool>(
    session: Option<&z_loaned_session_t>,
    key_expr: Option<&z_loaned_keyexpr_t>,
    payload: Option<&mut z_moved_bytes_t>,
    options: Option<&mut z_put_options_t>,
    publish: P,
    code: ZResult,
)
    requires
        call_ensures(z_put::<P>, (session, key_expr, payload, options, publish), code),
    ensures
        payload is Some ==> final(payload->0)._this.state is None,
        options is Some ==> final(options->0).attachment._this.state is None,
        if session is Some && session->0.state is Some && key_expr is Some && key_expr->0.state is Some
            && payload is Some && payload->0._this.state is Some {
            exists|request: PublishRequest, sent: bool|
                {
                    &&& #[trigger] call_ensures(publish, (request,), sent)
                    &&& code == (if sent {
                        0i8
                    } else {
                        -1i8
                    })
                    &&& request.session == session->0.state->0.shared
                    &&& request.target is Key
                    &&& request.target->Key_0@ == key_expr->0.state->0.keyexpr@
                    &&& request.payload@ == payload->0._this.state->0.payload@
                    &&& request.options.kind == SampleKind::Put
                    &&& request.options.allowed_destination == Locality::Remote
                    &&& options matches Some(o) ==> {
                        &&& 0 <= o.priority <= 7 ==> request.options.priority == o.priority
                        &&& request.options.congestion_control == CongestionControl::Block
                            <==> o.congestion_control == 0 || o.congestion_control == 2
                        &&& request.options.express == o.is_express
                        &&& same_hint(request.options.encoding, o.encoding._this.state)
                        &&& request.options.attachment is Some == o.attachment._this.state is Some
                        &&& request.options.attachment is Some
                            ==> request.options.attachment->0@
                            == o.attachment._this.state->0.payload@
                    }
                    &&& options is None ==> {
                        &&& request.options.priority == 5
                        &&& request.options.congestion_control == CongestionControl::Drop
                        &&& !request.options.express
                        &&& request.options.encoding is None
                        &&& request.options.attachment is None
                    }
                }
        } else {
            code == -5
        },
{
}

/// A deletion on a session goes out once, under its text, with the options that
/// were asked for and no payload.
pub proof fn lemma_a_delete_sends_what_it_was_given<P: FnOnce(PublishRequest) -> bool>(
    session: Option<&z_loaned_session_t>,
    key_expr: Option<&z_loaned_keyexpr_t>,
    options: Option<&z_delete_options_t>,
    publish: P,
    code: ZResult,
)
    requires
        call_ensures(z_delete::<P>, (session, key_expr, options, publish), code),
    ensures
        if session is Some && session->0.state is Some && key_expr is Some
            && key_expr->0.state is Some {
            exists|request: PublishRequest, sent: bool|
                {
                    &&& #[trigger] call_ensures(publish, (request,), sent)
                    &&& code == (if sent {
                        0i8
                    } else {
                        -1i8
                    })
                    &&& request.session == session->0.state->0.shared
                    &&& request.target is Key
                    &&& request.target->Key_0@ == key_expr->0.state->0.keyexpr@
                    &&& request.payload@.len() == 0
                    &&& request.options.kind == SampleKind::Del
                    &&& request.options.allowed_destination == Locality::Remote
                    &&& request.options.encoding is None
                    &&& request.options.attachment is None
                    &&& options matches Some(o) ==> {
                        &&& 0 <= o.priority <= 7 ==> request.options.priority == o.priority
                        &&& request.options.congestion_control == CongestionControl::Block
                            <==> o.congestion_control == 0 || o.congestion_control == 2
                        &&& request.options.express == o.is_express
                    }
                    &&& options is None ==> request.options.priority == 5
                        && request.options.congestion_control == CongestionControl::Drop
                        && !request.options.express
                }
        } else {
            code == -5
        },
{
}

/// A publisher is declared on its session under its key expression, alias and all,
/// and keeps the options it was declared with. Their encoding is consumed where it
/// is declared and nowhere else.
pub proof fn lemma_a_publisher_keeps_what_it_was_declared_with<O: Fn(&str) -> bool>(
    session: Option<&z_loaned_session_t>,
    publisher: &mut z_owned_publisher_t,
    key_expr: Option<&z_loaned_keyexpr_t>,
    options: Option<&mut z_publisher_options_t>,
    outbound: &O,
    code: ZResult,
)
    requires
        call_ensures(
            z_declare_publisher::<O>,
            (session, Some(publisher), key_expr, options, outbound),
            code,
        ),
    ensures
        code == 0 ==> session is Some && session->0.state is Some && key_expr is Some
            && key_expr->0.state is Some,
        code != 0 ==> final(publisher).state is None,
        code != 0 ==> (options matches Some(o) ==> *final(o) == *o),
        session is None || session->0.state is None || key_expr is None || key_expr->0.state is None
            ==> code == -5,
        code == 0 ==> {
            let state = final(publisher).state->0;
            let given = key_expr->0.state->0;
            &&& final(publisher).state is Some
            &&& state.shared == session->0.state->0.shared
            &&& state.keyexpr.state is Some
            &&& state.keyexpr.state->0.keyexpr@ == given.keyexpr@
            &&& state.keyexpr.state->0.mapping == given.mapping
            &&& state.bound
            &&& state.matching is None
            &&& state.base.kind == SampleKind::Put
            &&& state.base.attachment is None
            &&& state.base.timestamp is None
            &&& state.base.source_info is None
            &&& options matches Some(o) ==> {
                &&& 0 <= o.priority <= 7 ==> state.base.priority == o.priority
                &&& o.priority < 0 || o.priority > 7 ==> state.base.priority == 5
                &&& state.base.congestion_control == CongestionControl::Block
                    <==> o.congestion_control == 0 || o.congestion_control == 2
                &&& state.base.express == o.is_express
                &&& state.base.allowed_destination == Locality::SessionLocal
                    <==> o.allowed_destination == 1
                &&& state.base.allowed_destination == Locality::Remote <==> o.allowed_destination
                    == 2
                &&& state.base.encoding == o.encoding._this.state
                &&& final(o).encoding._this.state is None
                &&& final(o).priority == o.priority
            }
            &&& options is None ==> {
                &&& state.base.priority == 5
                &&& state.base.congestion_control == CongestionControl::Drop
                &&& !state.base.express
                &&& state.base.allowed_destination == Locality::Remote
                &&& state.base.encoding is None
            }
        },
        // Whether it is declared is what the session answered about that text.
        session is Some && session->0.state is Some && key_expr is Some && key_expr->0.state is Some
            ==> (code == 0 || code == -1) && exists|t: &str, ok: bool|
            t@ == key_expr->0.state->0.keyexpr@ && ok == (code == 0) && #[trigger] call_ensures(
                *outbound,
                (t,),
                ok,
            ),
{
}

/// A publication through a publisher goes out on the publisher's session, under its
/// alias where it has one, with the publisher's options; what the publication
/// brings itself comes before what the publisher declared.
pub proof fn lemma_a_publisher_sends_as_it_was_declared<P: FnOnce(PublishRequest) -> bool>(
    this_: Option<&z_loaned_publisher_t>,
    payload: Option<&mut z_moved_bytes_t>,
    options: Option<&mut z_publisher_put_options_t>,
    publish: P,
    code: ZResult,
)
    requires
        call_ensures(z_publisher_put::<P>, (this_, payload, options, publish), code),
    ensures
        payload is Some ==> final(payload->0)._this.state is None,
        options is Some ==> final(options->0).encoding._this.state is None,
        options is Some ==> final(options->0).attachment._this.state is None,
        if this_ is Some && this_->0.state is Some && payload is Some
            && payload->0._this.state is Some {
            exists|request: PublishRequest, sent: bool|
                {
                    let state = this_->0.state->0;
                    let base = state.base;
                    &&& #[trigger] call_ensures(publish, (request,), sent)
                    &&& code == (if sent {
                        0i8
                    } else {
                        -1i8
                    })
                    &&& request.session == state.shared
                    &&& state.keyexpr.state->0.mapping is Some ==> request.target
                        == PublishTarget::Alias(state.keyexpr.state->0.mapping->0)
                    &&& state.keyexpr.state->0.mapping is None ==> request.target is Key
                        && request.target->Key_0@ == state.keyexpr.state->0.keyexpr@
                    &&& request.payload@ == payload->0._this.state->0.payload@
                    &&& request.options.kind == base.kind
                    &&& request.options.allowed_destination == base.allowed_destination
                    &&& request.options.priority == base.priority
                    &&& request.options.congestion_control == base.congestion_control
                    &&& request.options.express == base.express
                    &&& request.options.timestamp == base.timestamp
                    &&& options is None ==> {
                        &&& same_hint(request.options.encoding, base.encoding)
                        &&& request.options.attachment is Some == base.attachment is Some
                        &&& base.attachment is Some ==> request.options.attachment->0@
                            == base.attachment->0@
                        &&& request.options.source_info == base.source_info
                    }
                    &&& options matches Some(o) ==> {
                        &&& o.encoding._this.state is Some ==> same_hint(
                            request.options.encoding,
                            o.encoding._this.state,
                        )
                        &&& o.encoding._this.state is None ==> same_hint(
                            request.options.encoding,
                            base.encoding,
                        )
                        &&& o.attachment._this.state is Some ==> request.options.attachment is Some
                            && request.options.attachment->0@
                            == o.attachment._this.state->0.payload@
                        &&& o.attachment._this.state is None
                            ==> request.options.attachment is Some == base.attachment is Some
                        &&& o.attachment._this.state is None && base.attachment is Some
                            ==> request.options.attachment->0@ == base.attachment->0@
                        &&& o.source_info is Some ==> request.options.source_info == o.source_info
                        &&& o.source_info is None ==> request.options.source_info
                            == base.source_info
                    }
                }
        } else {
            code == -5
        },
{
}

/// A deletion through a publisher goes out as its publications do, with no payload
/// and, where one is given, with a timestamp.
pub proof fn lemma_a_publisher_deletes_as_it_was_declared<P: FnOnce(PublishRequest) -> bool>(
    this_: Option<&z_loaned_publisher_t>,
    options: Option<&z_publisher_delete_options_t>,
    publish: P,
    code: ZResult,
)
    requires
        call_ensures(z_publisher_delete::<P>, (this_, options, publish), code),
    ensures
        if this_ is Some && this_->0.state is Some {
            exists|request: PublishRequest, sent: bool|
                {
                    let state = this_->0.state->0;
                    let base = state.base;
                    &&& #[trigger] call_ensures(publish, (request,), sent)
                    &&& code == (if sent {
                        0i8
                    } else {
                        -1i8
                    })
                    &&& request.session == state.shared
                    &&& state.keyexpr.state->0.mapping is Some ==> request.target
                        == PublishTarget::Alias(state.keyexpr.state->0.mapping->0)
                    &&& state.keyexpr.state->0.mapping is None ==> request.target is Key
                        && request.target->Key_0@ == state.keyexpr.state->0.keyexpr@
                    &&& request.payload@.len() == 0
                    &&& request.options.kind == SampleKind::Del
                    &&& request.options.allowed_destination == base.allowed_destination
                    &&& request.options.priority == base.priority
                    &&& request.options.congestion_control == base.congestion_control
                    &&& request.options.express == base.express
                    &&& same_hint(request.options.encoding, base.encoding)
                    &&& request.options.attachment is Some == base.attachment is Some
                    &&& base.attachment is Some ==> request.options.attachment->0@
                        == base.attachment->0@
                    &&& request.options.source_info == base.source_info
                    &&& options is Some && options->0.timestamp is Some
                        ==> request.options.timestamp == options->0.timestamp
                    &&& options is None || options->0.timestamp is None
                        ==> request.options.timestamp == base.timestamp
                }
        } else {
            code == -5
        },
{
}

/// A publisher's identity is what its session gives for that handle, its key
/// expression is the one it was declared under, and undeclaring or dropping it
/// gives up the listener it carried, once.
pub proof fn lemma_a_publisher_is_read_and_given_up<
    F: FnOnce(u64, usize) -> z_entity_global_id_t,
>(
    this_: Option<&z_loaned_publisher_t>,
    address: usize,
    for_entity: F,
    id: z_entity_global_id_t,
    loaned: Option<&z_loaned_keyexpr_t>,
    undeclared: &mut z_moved_publisher_t,
    r: (ZResult, Option<MatchingHold>),
    dropped: &mut z_moved_publisher_t,
    retired: Option<MatchingHold>,
)
    requires
        call_ensures(z_publisher_id::<F>, (this_, address, for_entity), id),
        call_ensures(z_publisher_keyexpr, (this_,), loaned),
        call_ensures(z_undeclare_publisher, (Some(undeclared),), r),
        call_ensures(z_publisher_drop, (Some(dropped),), retired),
    ensures
        this_ is Some && this_->0.state is Some ==> call_ensures(
            for_entity,
            (this_->0.state->0.shared, address),
            id,
        ),
        this_ is None || this_->0.state is None ==> id.eid == 0,
        loaned is Some == (this_ is Some && this_->0.state is Some && this_->0.state->0.bound),
        loaned is Some ==> *loaned->0 == this_->0.state->0.keyexpr,
        r.0 == 0,
        old(undeclared)._this.state is Some ==> r.1 == old(undeclared)._this.state->0.matching,
        old(undeclared)._this.state is None ==> r.1 is None,
        final(undeclared)._this.state is None,
        old(dropped)._this.state is Some ==> retired == old(dropped)._this.state->0.matching,
        old(dropped)._this.state is None ==> retired is None,
        final(dropped)._this.state is None,
{
}

} // verus!
