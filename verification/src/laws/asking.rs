//! Laws of queriers and their gets.

use vstd::prelude::*;

use crate::closure::DropCall;
use crate::closure::MovedClosure;
use crate::keyexpr::z_loaned_keyexpr_t;
use crate::matching::MatchingHold;
use crate::meta::same_hint;
use crate::qos::CongestionControl;
use crate::querier::resolve_querier_options;
use crate::querier::saturate_timeout;
use crate::querier::z_declare_querier;
use crate::querier::z_loaned_querier_t;
use crate::querier::z_moved_querier_t;
use crate::querier::z_owned_querier_t;
use crate::querier::z_querier_drop;
use crate::querier::z_querier_get;
use crate::querier::z_querier_get_options_default;
use crate::querier::z_querier_get_options_t;
use crate::querier::z_querier_options_default;
use crate::querier::z_querier_options_t;
use crate::querier::z_undeclare_querier;
use crate::querier::GetRequest;
use crate::querier::QuerierBase;
use crate::result::ZResult;
use crate::session::z_loaned_session_t;

verus! {

/// A timeout that fits the wire's 32 bits is sent as it is, and a longer one as the
/// longest.
pub proof fn lemma_a_timeout_is_sent_as_it_is(timeout_ms: u64, sent: u32)
    requires
        call_ensures(saturate_timeout, (timeout_ms,), sent),
    ensures
        timeout_ms <= 0xffff_ffff ==> sent == timeout_ms,
        timeout_ms > 0xffff_ffff ==> sent == 0xffff_ffffu32,
        sent == 0xffff_ffffu32 ==> timeout_ms >= 0xffff_ffff,
{
}

/// A querier starts every get from the options it was given: target, consolidation,
/// timeout, priority, congestion control and express flag are theirs. Without
/// options all of it is left to the runtime.
pub proof fn lemma_querier_options_are_resolved_as_asked(
    options: Option<&z_querier_options_t>,
    base: Option<QuerierBase>,
)
    requires
        call_ensures(resolve_querier_options, (options,), base),
    ensures
        base is Some == options is Some,
        options matches Some(o) ==> {
            &&& base->0.target == o.target
            &&& base->0.consolidation == o.consolidation.mode
            &&& o.timeout_ms <= 0xffff_ffff ==> base->0.timeout_ms == o.timeout_ms
            &&& o.timeout_ms > 0xffff_ffff ==> base->0.timeout_ms == 0xffff_ffffu32
            &&& 0 <= o.priority <= 7 ==> base->0.priority == o.priority
            &&& o.priority < 0 || o.priority > 7 ==> base->0.priority == 5
            &&& base->0.congestion_control == CongestionControl::Block <==> o.congestion_control
                == 0 || o.congestion_control == 2
            &&& base->0.express == o.is_express
        },
{
}

/// Queriers that were given different targets, consolidations or express flags ask
/// with different ones.
pub proof fn lemma_different_querier_options_stay_different(
    first: z_querier_options_t,
    second: z_querier_options_t,
    a: Option<QuerierBase>,
    b: Option<QuerierBase>,
)
    requires
        call_ensures(resolve_querier_options, (Some(&first),), a),
        call_ensures(resolve_querier_options, (Some(&second),), b),
    ensures
        first.target != second.target ==> a->0.target != b->0.target,
        first.consolidation.mode != second.consolidation.mode ==> a->0.consolidation
            != b->0.consolidation,
        first.is_express != second.is_express ==> a->0.express != b->0.express,
        first.timeout_ms < second.timeout_ms <= 0xffff_ffff ==> a->0.timeout_ms < b->0.timeout_ms,
        0 <= first.priority < second.priority <= 7 ==> a->0.priority < b->0.priority,
{
}

/// The default options of a querier ask whoever fits best, consolidate as fits,
/// wait where the way is congested and have the default timeout and priority.
pub proof fn lemma_default_querier_options_have_their_numbers(
    querier: &mut z_querier_options_t,
    get: &mut z_querier_get_options_t,
)
    requires
        call_ensures(z_querier_options_default, (Some(querier),), ()),
        call_ensures(z_querier_get_options_default, (Some(get),), ()),
    ensures
        final(querier).target == 0,
        final(querier).consolidation.mode == -1,
        final(querier).congestion_control == 0,
        !final(querier).is_express,
        final(querier).allowed_destination == 0,
        final(querier).accept_replies == 1,
        final(querier).priority == 5,
        final(querier).timeout_ms == 0,
        final(get).payload._this.state is None,
        final(get).encoding._this.state is None,
        final(get).source_info is None,
        final(get).attachment._this.state is None,
{
}

/// A querier is declared on its session under its text, with no alias and no
/// listener, and keeps the options it was given. Whether it is declared is what the
/// session answered about that text.
pub proof fn lemma_a_querier_keeps_what_it_was_declared_with<O: Fn(&str) -> bool>(
    session: Option<&z_loaned_session_t>,
    querier: &mut z_owned_querier_t,
    key_expr: Option<&z_loaned_keyexpr_t>,
    options: Option<&z_querier_options_t>,
    outbound: &O,
    code: ZResult,
)
    requires
        call_ensures(
            z_declare_querier::<O>,
            (session, Some(querier), key_expr, options, outbound),
            code,
        ),
    ensures
        session is None || session->0.state is None || key_expr is None || key_expr->0.state is None
            ==> code == -5,
        session is Some && session->0.state is Some && key_expr is Some && key_expr->0.state is Some
            ==> (code == 0 || code == -1) && exists|t: &str, ok: bool|
            t@ == key_expr->0.state->0.keyexpr@ && ok == (code == 0) && #[trigger] call_ensures(
                *outbound,
                (t,),
                ok,
            ),
        code != 0 ==> final(querier).state is None,
        code == 0 ==> {
            let state = final(querier).state->0;
            &&& final(querier).state is Some
            &&& state.shared == session->0.state->0.shared
            &&& state.keyexpr.state is Some
            &&& state.keyexpr.state->0.keyexpr@ == key_expr->0.state->0.keyexpr@
            &&& state.keyexpr.state->0.mapping is None
            &&& state.matching is None
            &&& state.base is Some == options is Some
            &&& options matches Some(o) ==> {
                &&& state.base->0.target == o.target
                &&& state.base->0.consolidation == o.consolidation.mode
                &&& o.timeout_ms <= 0xffff_ffff ==> state.base->0.timeout_ms == o.timeout_ms
                &&& 0 <= o.priority <= 7 ==> state.base->0.priority == o.priority
                &&& state.base->0.congestion_control == CongestionControl::Block
                    <==> o.congestion_control == 0 || o.congestion_control == 2
                &&& state.base->0.express == o.is_express
            }
        },
{
}

/// A get goes out on the querier's session, under its text and with its options,
/// and carries what the caller gave it. The closure goes with it. Where nothing is
/// issued the closure's drop is due, and where something is it is not.
pub proof fn lemma_a_get_carries_what_it_was_given<I: FnOnce(GetRequest) -> ZResult>(
    querier: Option<&z_loaned_querier_t>,
    parameters: Option<&[u8]>,
    callback: &mut MovedClosure,
    options: Option<&mut z_querier_get_options_t>,
    issue: I,
    r: (ZResult, Option<DropCall>),
)
    requires
        call_ensures(z_querier_get::<I>, (querier, parameters, Some(callback), options, issue), r),
    ensures
        final(callback)._this.call is None && final(callback)._this.drop is None,
        options matches Some(o) ==> {
            &&& final(o).payload._this.state is None
            &&& final(o).attachment._this.state is None
            &&& final(o).encoding == o.encoding
        },
        if querier is Some && querier->0.state is Some {
            r.1 is None && exists|request: GetRequest|
                {
                    let state = querier->0.state->0;
                    &&& #[trigger] call_ensures(issue, (request,), r.0)
                    &&& request.session == state.shared
                    &&& request.keyexpr@ == state.keyexpr.state->0.keyexpr@
                    &&& request.base == state.base
                    &&& request.closure == old(callback)._this
                    &&& request.parameters is Some == parameters is Some
                    &&& parameters is Some ==> request.parameters->0@ == parameters->0@
                    &&& options is None ==> request.payload is None && request.encoding is None
                        && request.attachment is None
                    &&& options matches Some(o) ==> {
                        &&& request.payload is Some == o.payload._this.state is Some
                        &&& request.payload is Some ==> request.payload->0@
                            == o.payload._this.state->0.payload@
                        &&& request.attachment is Some == o.attachment._this.state is Some
                        &&& request.attachment is Some ==> request.attachment->0@
                            == o.attachment._this.state->0.payload@
                        &&& same_hint(request.encoding, o.encoding._this.state)
                    }
                }
        } else {
            &&& r.0 == -5
            &&& r.1 is Some == old(callback)._this.drop is Some
            &&& r.1 is Some ==> r.1->0.drop == old(callback)._this.drop->0 && r.1->0.context
                == old(callback)._this.context
        },
{
}

/// Giving up a querier gives up the listener it carried, once.
pub proof fn lemma_a_querier_gives_up_its_listener(
    undeclared: &mut z_moved_querier_t,
    r: (ZResult, Option<MatchingHold>),
    dropped: &mut z_moved_querier_t,
    retired: Option<MatchingHold>,
)
    requires
        call_ensures(z_undeclare_querier, (Some(undeclared),), r),
        call_ensures(z_querier_drop, (Some(dropped),), retired),
    ensures
        r.0 == 0,
        old(undeclared)._this.state is Some ==> r.1 == old(undeclared)._this.state->0.matching,
        old(undeclared)._this.state is None ==> r.1 is None,
        final(undeclared)._this.state is None,
        old(dropped)._this.state is Some ==> retired == old(dropped)._this.state->0.matching,
        old(dropped)._this.state is None ==> retired is None,
        final(dropped)._this.state is None,
{
}

} // verus!
