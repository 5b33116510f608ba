//! Laws of matching listeners, sessions and log closures.

use vstd::prelude::*;

use crate::closure::CClosure;
use crate::closure::DropCall;
use crate::closure::MovedClosure;
use crate::log::zc_closure_log;
use crate::log::zc_closure_log_call;
use crate::log::zc_closure_log_drop;
use crate::log::zc_init_log_with_callback;
use crate::log::zc_internal_closure_log_check;
use crate::log::zc_log_severity_t;
use crate::log::LogCall;
use crate::matching::matching_sink;
use crate::matching::z_closure_matching_status;
use crate::matching::z_closure_matching_status_call;
use crate::matching::z_closure_matching_status_drop;
use crate::matching::z_matching_listener_drop;
use crate::matching::z_matching_status_t;
use crate::matching::z_moved_matching_listener_t;
use crate::matching::z_owned_matching_listener_t;
use crate::matching::z_publisher_declare_background_matching_listener;
use crate::matching::z_publisher_declare_matching_listener;
use crate::matching::z_publisher_get_matching_status;
use crate::matching::z_querier_declare_matching_listener;
use crate::matching::z_querier_get_matching_status;
use crate::matching::z_undeclare_matching_listener;
use crate::matching::ze_advanced_publisher_declare_background_matching_listener;
use crate::matching::ze_advanced_publisher_declare_matching_listener;
use crate::matching::ze_advanced_publisher_get_matching_status;
use crate::matching::ze_loaned_advanced_publisher_t;
use crate::matching::BackgroundListener;
use crate::matching::KeptListener;
use crate::matching::MatchingCall;
use crate::matching::MatchingDeclaration;
use crate::matching::MatchingHold;
use crate::matching::MatchingScope;
use crate::publisher::z_loaned_publisher_t;
use crate::querier::z_loaned_querier_t;
use crate::querier::z_querier_declare_background_matching_listener;
use crate::result::ZResult;
use crate::session::dial_whatami;
use crate::session::z_close;
use crate::session::z_close_options_t;
use crate::session::z_loaned_session_t;
use crate::session::z_moved_config_t;
use crate::session::z_moved_session_t;
use crate::session::z_open;
use crate::session::z_open_options_t;
use crate::session::z_owned_session_t;
use crate::session::z_session_drop;
use crate::session::z_session_is_closed;
use crate::session::ConfigState;
use crate::session::OpenRequest;
use crate::session::WhatAmI;
use crate::string::z_loaned_string_t;

verus! {

/// A listener on a publisher is declared on its session, under its text and with the
/// closure, and watches for those who receive. On a dead one the closure's drop is due.
pub proof fn lemma_a_publisher_listener_watches_for_subscribers<D: FnOnce(MatchingDeclaration) -> u64>(
    publisher: Option<&z_loaned_publisher_t>,
    listener: &mut z_owned_matching_listener_t,
    callback: &mut MovedClosure,
    declare: D,
    r: (ZResult, Option<DropCall>),
)
    requires
        call_ensures(
            z_publisher_declare_matching_listener::<D>,
            (publisher, Some(listener), Some(callback), declare),
            r,
        ),
    ensures
        final(callback)._this.call is None && final(callback)._this.drop is None,
        if publisher is Some && publisher->0.state is Some {
            &&& r.0 == 0
            &&& r.1 is None
            &&& final(listener).state is Some
            &&& final(listener).state->0.shared == publisher->0.state->0.shared
            &&& exists|d: MatchingDeclaration|
                {
                    &&& #[trigger] call_ensures(declare, (d,), final(listener).state->0.id)
                    &&& d.session == publisher->0.state->0.shared
                    &&& d.keyexpr@ == publisher->0.state->0.keyexpr.state->0.keyexpr@
                    &&& d.scope == MatchingScope::Subscribers
                    &&& d.closure == old(callback)._this
                }
        } else {
            &&& r.0 == -5
            &&& r.1 is Some == old(callback)._this.drop is Some
            &&& r.1 is Some ==> r.1->0.drop == old(callback)._this.drop->0 && r.1->0.context
                == old(callback)._this.context
            &&& final(listener).state is None
        },
{
}

/// A listener on a querier watches for those who answer.
pub proof fn lemma_a_querier_listener_watches_for_queryables<D: FnOnce(MatchingDeclaration) -> u64>(
    querier: Option<&z_loaned_querier_t>,
    listener: &mut z_owned_matching_listener_t,
    callback: &mut MovedClosure,
    declare: D,
    r: (ZResult, Option<DropCall>),
)
    requires
        call_ensures(
            z_querier_declare_matching_listener::<D>,
            (querier, Some(listener), Some(callback), declare),
            r,
        ),
    ensures
        final(callback)._this.call is None && final(callback)._this.drop is None,
        if querier is Some && querier->0.state is Some {
            &&& r.0 == 0
            &&& r.1 is None
            &&& final(listener).state is Some
            &&& final(listener).state->0.shared == querier->0.state->0.shared
            &&& exists|d: MatchingDeclaration|
                {
                    &&& #[trigger] call_ensures(declare, (d,), final(listener).state->0.id)
                    &&& d.session == querier->0.state->0.shared
                    &&& d.keyexpr@ == querier->0.state->0.keyexpr.state->0.keyexpr@
                    &&& d.scope == MatchingScope::Queryables
                    &&& d.closure == old(callback)._this
                }
        } else {
            &&& r.0 == -5
            &&& r.1 is Some == old(callback)._this.drop is Some
            &&& r.1 is Some ==> r.1->0.drop == old(callback)._this.drop->0 && r.1->0.context
                == old(callback)._this.context
            &&& final(listener).state is None
        },
{
}

/// A listener on an advanced publisher watches for those who receive.
pub proof fn lemma_an_advanced_listener_watches_for_subscribers<D: FnOnce(MatchingDeclaration) -> u64>(
    publisher: Option<&ze_loaned_advanced_publisher_t>,
    listener: &mut z_owned_matching_listener_t,
    callback: &mut MovedClosure,
    declare: D,
    r: (ZResult, Option<DropCall>),
)
    requires
        call_ensures(
            ze_advanced_publisher_declare_matching_listener::<D>,
            (publisher, Some(listener), Some(callback), declare),
            r,
        ),
    ensures
        final(callback)._this.call is None && final(callback)._this.drop is None,
        if publisher is Some && publisher->0.state is Some {
            &&& r.0 == 0
            &&& r.1 is None
            &&& final(listener).state is Some
            &&& final(listener).state->0.shared == publisher->0.state->0.shared
            &&& exists|d: MatchingDeclaration|
                {
                    &&& #[trigger] call_ensures(declare, (d,), final(listener).state->0.id)
                    &&& d.session == publisher->0.state->0.shared
                    &&& d.keyexpr@ == publisher->0.state->0.keyexpr@
                    &&& d.scope == MatchingScope::Subscribers
                    &&& d.closure == old(callback)._this
                }
        } else {
            &&& r.0 == -5
            &&& r.1 is Some == old(callback)._this.drop is Some
            &&& r.1 is Some ==> r.1->0.drop == old(callback)._this.drop->0 && r.1->0.context
                == old(callback)._this.context
            &&& final(listener).state is None
        },
{
}

/// A background listener on a publisher is carried by it, and the one it carried
/// before is given up.
pub proof fn lemma_a_publisher_carries_its_last_listener<D: FnOnce(MatchingDeclaration) -> u64>(
    publisher: &mut z_loaned_publisher_t,
    callback: &mut MovedClosure,
    declare: D,
    r: BackgroundListener,
)
    requires
        call_ensures(
            z_publisher_declare_background_matching_listener::<D>,
            (Some(publisher), Some(callback), declare),
            r,
        ),
    ensures
        final(callback)._this.call is None && final(callback)._this.drop is None,
        final(publisher).state is Some == old(publisher).state is Some,
        if old(publisher).state is Some {
            let before = old(publisher).state->0;
            let after = final(publisher).state->0;
            &&& r.code == 0
            &&& r.due is None
            &&& r.retired == before.matching
            &&& after.matching is Some
            &&& after.matching->0.shared == before.shared
            &&& after.shared == before.shared
            &&& after.keyexpr == before.keyexpr
            &&& after.base == before.base
            &&& exists|d: MatchingDeclaration|
                {
                    &&& #[trigger] call_ensures(declare, (d,), after.matching->0.id)
                    &&& d.session == before.shared
                    &&& d.keyexpr@ == before.keyexpr.state->0.keyexpr@
                    &&& d.scope == MatchingScope::Subscribers
                    &&& d.closure == old(callback)._this
                }
        } else {
            &&& r.code == -5
            &&& r.retired is None
            &&& r.due is Some == old(callback)._this.drop is Some
            &&& r.due is Some ==> r.due->0.drop == old(callback)._this.drop->0 && r.due->0.context
                == old(callback)._this.context
        },
{
}

/// A background listener on a querier is carried by it, and the one it carried
/// before is given up.
pub proof fn lemma_a_querier_carries_its_last_listener<D: FnOnce(MatchingDeclaration) -> u64>(
    querier: &mut z_loaned_querier_t,
    callback: &mut MovedClosure,
    declare: D,
    r: BackgroundListener,
)
    requires
        call_ensures(
            z_querier_declare_background_matching_listener::<D>,
            (Some(querier), Some(callback), declare),
            r,
        ),
    ensures
        final(callback)._this.call is None && final(callback)._this.drop is None,
        final(querier).state is Some == old(querier).state is Some,
        if old(querier).state is Some {
            let before = old(querier).state->0;
            let after = final(querier).state->0;
            &&& r.code == 0
            &&& r.due is None
            &&& r.retired == before.matching
            &&& after.matching is Some
            &&& after.matching->0.shared == before.shared
            &&& after.shared == before.shared
            &&& after.keyexpr == before.keyexpr
            &&& after.base == before.base
            &&& exists|d: MatchingDeclaration|
                {
                    &&& #[trigger] call_ensures(declare, (d,), after.matching->0.id)
                    &&& d.session == before.shared
                    &&& d.keyexpr@ == before.keyexpr.state->0.keyexpr@
                    &&& d.scope == MatchingScope::Queryables
                    &&& d.closure == old(callback)._this
                }
        } else {
            &&& r.code == -5
            &&& r.retired is None
            &&& r.due is Some == old(callback)._this.drop is Some
            &&& r.due is Some ==> r.due->0.drop == old(callback)._this.drop->0 && r.due->0.context
                == old(callback)._this.context
        },
{
}

/// A background listener on an advanced publisher is handed over to be kept.
pub proof fn lemma_an_advanced_publisher_is_handed_its_listener<
    D: FnOnce(MatchingDeclaration) -> u64,
>(
    publisher: Option<&ze_loaned_advanced_publisher_t>,
    callback: &mut MovedClosure,
    declare: D,
    r: KeptListener,
)
    requires
        call_ensures(
            ze_advanced_publisher_declare_background_matching_listener::<D>,
            (publisher, Some(callback), declare),
            r,
        ),
    ensures
        final(callback)._this.call is None && final(callback)._this.drop is None,
        if publisher is Some && publisher->0.state is Some {
            &&& r.code == 0
            &&& r.due is None
            &&& r.hold is Some
            &&& r.hold->0.shared == publisher->0.state->0.shared
            &&& exists|d: MatchingDeclaration|
                {
                    &&& #[trigger] call_ensures(declare, (d,), r.hold->0.id)
                    &&& d.session == publisher->0.state->0.shared
                    &&& d.keyexpr@ == publisher->0.state->0.keyexpr@
                    &&& d.scope == MatchingScope::Subscribers
                    &&& d.closure == old(callback)._this
                }
        } else {
            &&& r.code == -5
            &&& r.hold is None
            &&& r.due is Some == old(callback)._this.drop is Some
        },
{
}

/// Whether anyone receives from a publisher is what its session answers about its
/// text. A dead one has nobody.
pub proof fn lemma_a_publisher_asks_about_subscribers<H: FnOnce(u64, &str, MatchingScope) -> bool>(
    this_: Option<&z_loaned_publisher_t>,
    status: &mut z_matching_status_t,
    has_matching: H,
    code: ZResult,
)
    requires
        call_ensures(z_publisher_get_matching_status::<H>, (this_, Some(status), has_matching), code),
    ensures
        if this_ is Some && this_->0.state is Some {
            code == 0 && exists|t: &str|
                t@ == this_->0.state->0.keyexpr.state->0.keyexpr@ && #[trigger] call_ensures(
                    has_matching,
                    (this_->0.state->0.shared, t, MatchingScope::Subscribers),
                    final(status).matching,
                )
        } else {
            code == -5 && !final(status).matching
        },
{
}

/// Whether anyone answers a querier is what its session answers about its text.
pub proof fn lemma_a_querier_asks_about_queryables<H: FnOnce(u64, &str, MatchingScope) -> bool>(
    this_: Option<&z_loaned_querier_t>,
    status: &mut z_matching_status_t,
    has_matching: H,
    code: ZResult,
)
    requires
        call_ensures(z_querier_get_matching_status::<H>, (this_, Some(status), has_matching), code),
    ensures
        if this_ is Some && this_->0.state is Some {
            code == 0 && exists|t: &str|
                t@ == this_->0.state->0.keyexpr.state->0.keyexpr@ && #[trigger] call_ensures(
                    has_matching,
                    (this_->0.state->0.shared, t, MatchingScope::Queryables),
                    final(status).matching,
                )
        } else {
            code == -5 && !final(status).matching
        },
{
}

/// Whether anyone receives from an advanced publisher is what its session answers.
pub proof fn lemma_an_advanced_publisher_asks_about_subscribers<H: FnOnce(u64, &str, MatchingScope) -> bool>(
    this_: Option<&ze_loaned_advanced_publisher_t>,
    status: &mut z_matching_status_t,
    has_matching: H,
    code: ZResult,
)
    requires
        call_ensures(ze_advanced_publisher_get_matching_status::<H>, (this_, Some(status), has_matching), code),
    ensures
        if this_ is Some && this_->0.state is Some {
            code == 0 && exists|t: &str|
                t@ == this_->0.state->0.keyexpr@ && #[trigger] call_ensures(
                    has_matching,
                    (this_->0.state->0.shared, t, MatchingScope::Subscribers),
                    final(status).matching,
                )
        } else {
            code == -5 && !final(status).matching
        },
{
}

/// A listener is given up under its own id on its own session, once.
pub proof fn lemma_a_listener_is_retracted_once(
    dropped: &mut z_moved_matching_listener_t,
    retired: Option<MatchingHold>,
    undeclared: &mut z_moved_matching_listener_t,
    r: (ZResult, Option<MatchingHold>),
)
    requires
        call_ensures(z_matching_listener_drop, (Some(dropped),), retired),
        call_ensures(z_undeclare_matching_listener, (Some(undeclared),), r),
    ensures
        final(dropped)._this.state is None,
        retired is Some == old(dropped)._this.state is Some,
        retired is Some ==> retired->0.shared == old(dropped)._this.state->0.shared
            && retired->0.id == old(dropped)._this.state->0.id,
        final(undeclared)._this.state is None,
        r.0 == 0,
        r.1 is Some == old(undeclared)._this.state is Some,
        r.1 is Some ==> r.1->0.shared == old(undeclared)._this.state->0.shared && r.1->0.id
            == old(undeclared)._this.state->0.id,
{
}

/// A listener's closure is called with its own context and with the verdict as it is.
pub proof fn lemma_a_verdict_reaches_the_closure(
    closure: CClosure,
    matching: bool,
    told: Option<MatchingCall>,
    status: Option<&z_matching_status_t>,
    called: Option<MatchingCall>,
    built: &mut CClosure,
    call: Option<usize>,
    drop: Option<usize>,
    context: usize,
    moved: &mut MovedClosure,
    due: Option<DropCall>,
)
    requires
        call_ensures(matching_sink, (&closure, matching), told),
        call_ensures(z_closure_matching_status_call, (Some(&closure), status), called),
        call_ensures(z_closure_matching_status, (Some(built), call, drop, context), ()),
        call_ensures(z_closure_matching_status_drop, (Some(moved),), due),
    ensures
        told is Some == closure.call is Some,
        told is Some ==> told->0.invocation.call == closure.call->0 && told->0.invocation.context
            == closure.context && told->0.status is Some && told->0.status->0.matching == matching,
        called is Some == closure.call is Some,
        called is Some ==> called->0.invocation.call == closure.call->0
            && called->0.invocation.context == closure.context && called->0.status is Some
            == status is Some,
        called is Some && status is Some ==> called->0.status->0.matching == status->0.matching,
        final(built).call == call && final(built).drop == drop && final(built).context == context,
        due is Some == old(moved)._this.drop is Some,
        due is Some ==> due->0.drop == old(moved)._this.drop->0 && due->0.context == old(moved)._this.context,
        final(moved)._this.call is None && final(moved)._this.drop is None,
{
}

/// A log closure is called with its own context, the severity and the message; a
/// closure that is dropped or installed is consumed and its drop is due.
pub proof fn lemma_a_log_closure_is_called_and_consumed<'a>(
    closure: CClosure,
    severity: zc_log_severity_t,
    msg: Option<&'a z_loaned_string_t<'a>>,
    due: Option<LogCall<'a>>,
    held: bool,
    built: &mut CClosure,
    call: Option<usize>,
    drop: Option<usize>,
    context: usize,
    dropped: &mut MovedClosure,
    drop_due: Option<DropCall>,
    installed: &mut MovedClosure,
    install_due: Option<DropCall>,
)
    requires
        call_ensures(zc_closure_log_call, (Some(&closure), severity, msg), due),
        call_ensures(zc_internal_closure_log_check, (Some(&closure),), held),
        call_ensures(zc_closure_log, (Some(built), call, drop, context), ()),
        call_ensures(zc_closure_log_drop, (Some(dropped),), drop_due),
        call_ensures(zc_init_log_with_callback, (severity, Some(installed)), install_due),
    ensures
        due is Some == closure.call is Some,
        held == closure.call is Some,
        due is Some ==> due->0.invocation.call == closure.call->0 && due->0.invocation.context
            == closure.context && due->0.severity == severity && due->0.msg == msg,
        final(built).call == call && final(built).drop == drop && final(built).context == context,
        drop_due is Some == old(dropped)._this.drop is Some,
        drop_due is Some ==> drop_due->0.drop == old(dropped)._this.drop->0 && drop_due->0.context
            == old(dropped)._this.context,
        final(dropped)._this.call is None && final(dropped)._this.drop is None,
        install_due is Some == old(installed)._this.drop is Some,
        install_due is Some ==> install_due->0.drop == old(installed)._this.drop->0
            && install_due->0.context == old(installed)._this.context,
        final(installed)._this.call is None && final(installed)._this.drop is None,
{
}

/// A session takes the role that its mode names, and a client's where it names none.
pub proof fn lemma_a_mode_names_its_role(cfg: ConfigState, role: WhatAmI)
    requires
        call_ensures(dial_whatami, (&cfg,), role),
    ensures
        role == WhatAmI::Peer <==> cfg.mode is Some && cfg.mode->0@ == seq!['p', 'e', 'e', 'r'],
        role == WhatAmI::Router <==> cfg.mode is Some && cfg.mode->0@
            == seq!['r', 'o', 'u', 't', 'e', 'r'],
{
    reveal_strlit("peer");
    reveal_strlit("router");
    assert("peer"@ =~= seq!['p', 'e', 'e', 'r']);
    assert("router"@ =~= seq!['r', 'o', 'u', 't', 'e', 'r']);
    assert("peer"@[0] == 'p' && "router"@[0] == 'r');
}

/// A session is opened at the one end its configuration names, in the role it names,
/// and holds the link it was given. One that names no end, or both, is refused.
pub proof fn lemma_a_session_opens_what_was_configured<F: FnOnce(OpenRequest) -> Option<u64>>(
    slot: &mut z_owned_session_t,
    config: &mut z_moved_config_t,
    options: Option<&z_open_options_t>,
    open: F,
    code: ZResult,
    role: WhatAmI,
)
    requires
        call_ensures(z_open::<F>, (Some(slot), Some(config), options, open), code),
        old(config)._this.state is Some ==> call_ensures(
            dial_whatami,
            (&old(config)._this.state->0,),
            role,
        ),
    ensures
        final(config)._this.state is None,
        final(slot).state is Some == (code == 0),
        old(config)._this.state is None ==> code == -5,
        old(config)._this.state matches Some(cfg) ==> {
            &&& cfg.connect is Some == cfg.listen is Some ==> code == -1
            &&& cfg.connect is Some != cfg.listen is Some ==> code == 0 || code == -4
            &&& code == 0 || code == -4 ==> exists|request: OpenRequest, link: Option<u64>|
                {
                    &&& #[trigger] call_ensures(open, (request,), link)
                    &&& link is Some == (code == 0)
                    &&& code == 0 ==> final(slot).state->0.shared == link->0
                    &&& cfg.connect is Some ==> request is Connect && request->Connect_endpoint
                        == cfg.connect->0 && request->Connect_role == role
                    &&& cfg.listen is Some ==> request is Listen && request->Listen_endpoint
                        == cfg.listen->0 && request->Listen_role == role
                }
        },
        code == 0 ==> !final(slot).state->0.closed,
{
}

/// A session that is closed hands back its link once, stays there and reads as
/// closed. Dropping a session hands back its link where it was still open. A dead
/// session reads as closed.
pub proof fn lemma_a_link_is_handed_back_once(
    session: &mut z_loaned_session_t,
    options: Option<&z_close_options_t>,
    first: (ZResult, Option<u64>),
    again: &mut z_loaned_session_t,
    second: (ZResult, Option<u64>),
    read: Option<&z_loaned_session_t>,
    closed: bool,
    moved: &mut z_moved_session_t,
    due: Option<u64>,
)
    requires
        call_ensures(z_close, (Some(session), options), first),
        *old(again) == *final(session),
        call_ensures(z_close, (Some(again), options), second),
        call_ensures(z_session_is_closed, (read,), closed),
        call_ensures(z_session_drop, (Some(moved),), due),
    ensures
        first.0 == (if old(session).state is Some {
            0i8
        } else {
            -5i8
        }),
        first.1 is Some == (old(session).state is Some && !old(session).state->0.closed),
        first.1 is Some ==> first.1->0 == old(session).state->0.shared,
        old(session).state is Some ==> final(session).state is Some && final(session).state->0.closed && final(session).state->0.shared == old(session).state->0.shared,
        second.1 is None,
        closed == (read is None || read->0.state is None || read->0.state->0.closed),
        final(moved)._this.state is None,
        due is Some == (old(moved)._this.state is Some && !old(moved)._this.state->0.closed),
        due is Some ==> due->0 == old(moved)._this.state->0.shared,
{
}

} // verus!
