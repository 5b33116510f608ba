//! Matching listeners: whether anyone is there for what is published or asked.
//!
//! A listener's closure is consumed on every path of a declaration. Where nothing
//! comes of the declaration, its drop function is due.

use vstd::prelude::*;

use crate::closure::adopt;
use crate::closure::build;
use crate::closure::discard;
use crate::closure::holds_call;
use crate::closure::invoke;
use crate::closure::CClosure;
use crate::closure::DropCall;
use crate::closure::Invocation;
use crate::closure::MovedClosure;
use crate::handle::gravestone;
use crate::handle::is_live;
use crate::handle::live;
use crate::handle::state_of;
use crate::handle::take;
use crate::handle::Moved;
use crate::handle::Owned;
use crate::publisher::z_loaned_publisher_t;
use crate::publisher::PublisherState;
use crate::querier::z_loaned_querier_t;
use crate::result::ZResult;
use crate::result::Z_ENULL;
use crate::result::Z_OK;

verus! {

/// Whether anyone is there.
#[derive(Clone, Copy, Debug, PartialEq, Eq, Structural)]
pub struct z_matching_status_t {
    pub matching: bool,
}

/// An owned matching-status closure.
pub type z_owned_closure_matching_status_t = CClosure;

/// A borrowed matching-status closure: the same value.
pub type z_loaned_closure_matching_status_t = CClosure;

/// A matching-status closure on its way to be consumed.
pub type z_moved_closure_matching_status_t = MovedClosure;

/// A live listener, to be retracted with whatever it was declared on.
#[derive(Clone, Copy, Debug, PartialEq, Eq, Structural)]
pub struct MatchingHold {
    pub shared: u64,
    pub id: u64,
}

impl MatchingHold {
    /// Records a live listener.
    pub fn new(shared: u64, id: u64) -> (hold: MatchingHold)
        ensures
            hold == (MatchingHold { shared, id }),
    {
        MatchingHold { shared, id }
    }
}

/// Whom a listener watches for.
#[derive(Clone, Copy, Debug, PartialEq, Eq, Structural)]
pub enum MatchingScope {
    /// Those who would receive what is published.
    Subscribers,
    /// Those who would answer what is asked.
    Queryables,
}

/// A listener to be declared on a session.
pub struct MatchingDeclaration {
    pub session: u64,
    pub keyexpr: String,
    pub scope: MatchingScope,
    pub closure: CClosure,
}

/// Borrows a matching-status closure.
pub fn z_closure_matching_status_loan(closure: Option<&z_owned_closure_matching_status_t>) -> (loaned:
    Option<&z_loaned_closure_matching_status_t>)
    ensures
        loaned == closure,
{
    closure
}

/// A call of a matching-status closure, due now.
#[derive(Clone, Copy, Debug, PartialEq, Eq, Structural)]
pub struct MatchingCall {
    pub invocation: Invocation,
    pub status: Option<z_matching_status_t>,
}

/// Invokes a matching-status closure: the call that is due. A closure without a
/// function makes none.
pub fn z_closure_matching_status_call(
    closure: Option<&z_loaned_closure_matching_status_t>,
    matching_status: Option<&z_matching_status_t>,
) -> (due: Option<MatchingCall>)
    ensures
        due == (match closure {
            Some(closure) => match closure.invocation() {
                Some(invocation) => Some(
                    MatchingCall {
                        invocation,
                        status: match matching_status {
                            Some(status) => Some(*status),
                            None => None,
                        },
                    },
                ),
                None => None,
            },
            None => None,
        }),
{
    match invoke(closure) {
        Some(invocation) => Some(
            MatchingCall {
                invocation,
                status: match matching_status {
                    Some(status) => Some(*status),
                    None => None,
                },
            },
        ),
        None => None,
    }
}

/// Whether a matching-status closure holds a function.
pub fn z_internal_closure_matching_status_check(
    this_: Option<&z_owned_closure_matching_status_t>,
) -> (r: bool)
    ensures
        r == (this_ matches Some(closure) && closure.call is Some),
{
    holds_call(this_)
}

/// Makes a matching-status closure the gravestone.
pub fn z_internal_closure_matching_status_null(
    this_: Option<&mut z_owned_closure_matching_status_t>,
)
    ensures
        this_ matches Some(slot) ==> final(slot).is_null(),
{
    crate::closure::gravestone(this_)
}

/// Writes a matching-status closure from its parts.
pub fn z_closure_matching_status(
    this_: Option<&mut z_owned_closure_matching_status_t>,
    call: Option<usize>,
    drop: Option<usize>,
    context: usize,
)
    ensures
        this_ matches Some(slot) ==> *final(slot) == (CClosure { context, call, drop }),
{
    build(this_, call, drop, context)
}

/// Drops a matching-status closure that was never declared.
pub fn z_closure_matching_status_drop(
    closure_: Option<&mut z_moved_closure_matching_status_t>,
) -> (due: Option<DropCall>)
    ensures
        match closure_ {
            Some(m) => due == m._this.drop_call() && final(m)._this.is_null(),
            None => due is None,
        },
{
    discard(closure_)
}

/// Delivers a verdict to a listener's closure: the call that is due.
pub fn matching_sink(closure: &CClosure, matching: bool) -> (due: Option<MatchingCall>)
    ensures
        due == (match closure.invocation() {
            Some(invocation) => Some(
                MatchingCall { invocation, status: Some(z_matching_status_t { matching }) },
            ),
            None => None,
        }),
{
    z_closure_matching_status_call(Some(closure), Some(&z_matching_status_t { matching }))
}

/// Whether a listener declaration says these things.
pub open spec fn declares_listener(
    declaration: MatchingDeclaration,
    session: u64,
    text: Seq<char>,
    scope: MatchingScope,
    closure: CClosure,
) -> bool {
    &&& declaration.session == session
    &&& declaration.keyexpr@ == text
    &&& declaration.scope == scope
    &&& declaration.closure == closure
}

/// Whether `declare`, asked for this listener, may answer `id`.
pub open spec fn listener_declare_says<D: FnOnce(MatchingDeclaration) -> u64>(
    declare: D,
    session: u64,
    text: Seq<char>,
    scope: MatchingScope,
    closure: CClosure,
    id: u64,
) -> bool {
    exists|d: MatchingDeclaration|
        declares_listener(d, session, text, scope, closure) && #[trigger] call_ensures(
            declare,
            (d,),
            id,
        )
}

/// Whether `declare` may be asked for this listener.
pub open spec fn may_declare<D: FnOnce(MatchingDeclaration) -> u64>(
    declare: D,
    session: u64,
    text: Seq<char>,
    scope: MatchingScope,
    closure: CClosure,
) -> bool {
    forall|d: MatchingDeclaration|
        declares_listener(d, session, text, scope, closure) ==> #[trigger] call_requires(
            declare,
            (d,),
        )
}

fn declare_listener<D: FnOnce(MatchingDeclaration) -> u64>(
    session: u64,
    text: &str,
    scope: MatchingScope,
    closure: CClosure,
    declare: D,
) -> (id: u64)
    requires
        may_declare(declare, session, text@, scope, closure),
    ensures
        listener_declare_says(declare, session, text@, scope, closure, id),
{
    let declaration = MatchingDeclaration { session, keyexpr: text.to_owned(), scope, closure };
    let ghost asked = declaration;
    let id: u64 = declare(declaration);
    assert(call_ensures(declare, (asked,), id));
    id
}

/// What declaring a background listener came to.
pub struct BackgroundListener {
    pub code: ZResult,
    /// The closure's drop, where nothing was declared.
    pub due: Option<DropCall>,
    /// The listener that was replaced, to be retracted.
    pub retired: Option<MatchingHold>,
}

/// What declaring a background listener on a live publisher comes to: the new
/// listener is attached, and the one it replaces is to be retracted.
pub open spec fn publisher_listener_attached<D: FnOnce(MatchingDeclaration) -> u64>(
    declare: D,
    before: PublisherState,
    after: PublisherState,
    closure: CClosure,
    r: BackgroundListener,
) -> bool {
    &&& r.code == Z_OK
    &&& r.due is None
    &&& r.retired == before.matching
    &&& after.matching is Some
    &&& after.matching->0.shared == before.shared
    &&& after == (PublisherState { matching: after.matching, ..before })
    &&& listener_declare_says(
        declare,
        before.shared,
        before.keyexpr.state->0.keyexpr@,
        MatchingScope::Subscribers,
        closure,
        after.matching->0.id,
    )
}

/// Declares a listener that lives and dies with a publisher. A second one
/// supersedes the first.
pub fn z_publisher_declare_background_matching_listener<D: FnOnce(MatchingDeclaration) -> u64>(
    publisher: Option<&mut z_loaned_publisher_t>,
    callback: Option<&mut z_moved_closure_matching_status_t>,
    declare: D,
) -> (r: BackgroundListener)
    requires
        publisher matches Some(slot) ==> (slot.state matches Some(state) ==> state.wf()),
        (publisher, callback) matches (Some(slot), Some(moved)) ==> (
        slot.state matches Some(state) ==> may_declare(
            declare,
            state.shared,
            state.keyexpr.state->0.keyexpr@,
            MatchingScope::Subscribers,
            moved._this,
        )),
    ensures
        callback matches Some(moved) ==> final(moved)._this.is_null(),
        match (publisher, callback) {
            (Some(slot), Some(moved)) => match slot.state {
                Some(before) => final(slot).state matches Some(after)
                    && publisher_listener_attached(declare, before, after, moved._this, r),
                None => {
                    &&& r.code == Z_ENULL
                    &&& r.due == moved._this.drop_call()
                    &&& r.retired is None
                    &&& *final(slot) == *slot
                },
            },
            (None, Some(moved)) => {
                &&& r.code == Z_ENULL
                &&& r.due == moved._this.drop_call()
                &&& r.retired is None
            },
            (Some(slot), None) => {
                &&& r.code == Z_ENULL
                &&& r.due is None
                &&& r.retired is None
                &&& *final(slot) == *slot
            },
            (None, None) => r.code == Z_ENULL && r.due is None && r.retired is None,
        },
{
    let closure = match callback {
        Some(moved) => adopt(moved),
        None => {
            return BackgroundListener { code: Z_ENULL, due: None, retired: None };
        },
    };
    let slot = match publisher {
        Some(slot) => slot,
        None => {
            return BackgroundListener { code: Z_ENULL, due: closure.dropping(), retired: None };
        },
    };
    match &mut slot.state {
        None => BackgroundListener { code: Z_ENULL, due: closure.dropping(), retired: None },
        Some(state) => {
            let id: u64 = match &state.keyexpr.state {
                Some(ke) => declare_listener(
                    state.shared,
                    ke.keyexpr.as_str(),
                    MatchingScope::Subscribers,
                    closure,
                    declare,
                ),
                None => 0,
            };
            let retired = state.attach_matching(MatchingHold::new(state.shared, id));
            BackgroundListener { code: Z_OK, due: None, retired }
        },
    }
}

/// What stands behind an owned listener.
#[derive(Clone, Copy, Debug, PartialEq, Eq, Structural)]
pub struct ListenerState {
    pub shared: u64,
    pub id: u64,
}

/// An owned listener.
pub type z_owned_matching_listener_t = Owned<ListenerState>;

/// A listener on its way to be consumed.
pub type z_moved_matching_listener_t = Moved<ListenerState>;

/// What declaring an owned listener comes to, once it is known what it watches.
pub open spec fn listener_installed<D: FnOnce(MatchingDeclaration) -> u64>(
    declare: D,
    session: u64,
    text: Seq<char>,
    scope: MatchingScope,
    closure: CClosure,
    slot: z_owned_matching_listener_t,
    r: (ZResult, Option<DropCall>),
) -> bool {
    &&& r == (Z_OK, None::<DropCall>)
    &&& slot.state is Some
    &&& slot.state->0.shared == session
    &&& listener_declare_says(declare, session, text, scope, closure, slot.state->0.id)
}

/// What a declaration that cannot be made comes to: the closure is dropped and
/// the slot is a gravestone.
pub open spec fn listener_refused(
    closure: CClosure,
    slot: z_owned_matching_listener_t,
    r: (ZResult, Option<DropCall>),
) -> bool {
    r == (Z_ENULL, closure.drop_call()) && slot.state is None
}

fn install_listener<D: FnOnce(MatchingDeclaration) -> u64>(
    slot: &mut z_owned_matching_listener_t,
    watched: Option<(u64, &str)>,
    scope: MatchingScope,
    closure: CClosure,
    declare: D,
) -> (r: (ZResult, Option<DropCall>))
    requires
        watched matches Some((session, text)) ==> may_declare(
            declare,
            session,
            text@,
            scope,
            closure,
        ),
    ensures
        match watched {
            Some((session, text)) => listener_installed(
                declare,
                session,
                text@,
                scope,
                closure,
                *final(slot),
                r,
            ),
            None => listener_refused(closure, *final(slot), r),
        },
{
    slot.state = None;
    match watched {
        None => (Z_ENULL, closure.dropping()),
        Some((session, text)) => {
            let id: u64 = declare_listener(session, text, scope, closure, declare);
            slot.state = Some(ListenerState { shared: session, id });
            (Z_OK, None)
        },
    }
}

fn publisher_watch(publisher: Option<&z_loaned_publisher_t>) -> (watched: Option<(u64, &str)>)
    requires
        live(publisher) matches Some(state) ==> state.wf(),
    ensures
        match live(publisher) {
            Some(state) => watched is Some && (watched->0).0 == state.shared && (watched->0).1@
                == state.keyexpr.state->0.keyexpr@,
            None => watched is None,
        },
{
    match state_of(publisher) {
        Some(state) => match &state.keyexpr.state {
            Some(ke) => Some((state.shared, ke.keyexpr.as_str())),
            None => None,
        },
        None => None,
    }
}

fn querier_watch(querier: Option<&z_loaned_querier_t>) -> (watched: Option<(u64, &str)>)
    requires
        live(querier) matches Some(state) ==> state.wf(),
    ensures
        match live(querier) {
            Some(state) => watched is Some && (watched->0).0 == state.shared && (watched->0).1@
                == state.keyexpr.state->0.keyexpr@,
            None => watched is None,
        },
{
    match state_of(querier) {
        Some(state) => match &state.keyexpr.state {
            Some(ke) => Some((state.shared, ke.keyexpr.as_str())),
            None => None,
        },
        None => None,
    }
}

/// Declares an owned listener on a publisher.
pub fn z_publisher_declare_matching_listener<D: FnOnce(MatchingDeclaration) -> u64>(
    publisher: Option<&z_loaned_publisher_t>,
    matching_listener: Option<&mut z_owned_matching_listener_t>,
    callback: Option<&mut z_moved_closure_matching_status_t>,
    declare: D,
) -> (r: (ZResult, Option<DropCall>))
    requires
        live(publisher) matches Some(state) ==> state.wf(),
        (live(publisher), matching_listener, callback) matches (
            Some(state),
            Some(_),
            Some(moved),
        ) ==> may_declare(
            declare,
            state.shared,
            state.keyexpr.state->0.keyexpr@,
            MatchingScope::Subscribers,
            moved._this,
        ),
    ensures
        match (matching_listener, callback) {
            (Some(slot), Some(moved)) => {
                &&& final(moved)._this.is_null()
                &&& match live(publisher) {
                    Some(state) => listener_installed(
                        declare,
                        state.shared,
                        state.keyexpr.state->0.keyexpr@,
                        MatchingScope::Subscribers,
                        moved._this,
                        *final(slot),
                        r,
                    ),
                    None => listener_refused(moved._this, *final(slot), r),
                }
            },
            (Some(slot), None) => r == (Z_ENULL, None::<DropCall>) && *final(slot) == *slot,
            (None, Some(moved)) => r == (Z_ENULL, None::<DropCall>) && *final(moved) == *moved,
            (None, None) => r == (Z_ENULL, None::<DropCall>),
        },
{
    match (matching_listener, callback) {
        (Some(slot), Some(moved)) => {
            let closure = adopt(moved);
            let watched = publisher_watch(publisher);
            install_listener(slot, watched, MatchingScope::Subscribers, closure, declare)
        },
        _ => (Z_ENULL, None),
    }
}

/// Declares an owned listener on a querier. It watches for those who answer.
pub fn z_querier_declare_matching_listener<D: FnOnce(MatchingDeclaration) -> u64>(
    querier: Option<&z_loaned_querier_t>,
    matching_listener: Option<&mut z_owned_matching_listener_t>,
    callback: Option<&mut z_moved_closure_matching_status_t>,
    declare: D,
) -> (r: (ZResult, Option<DropCall>))
    requires
        live(querier) matches Some(state) ==> state.wf(),
        (live(querier), matching_listener, callback) matches (
            Some(state),
            Some(_),
            Some(moved),
        ) ==> may_declare(
            declare,
            state.shared,
            state.keyexpr.state->0.keyexpr@,
            MatchingScope::Queryables,
            moved._this,
        ),
    ensures
        match (matching_listener, callback) {
            (Some(slot), Some(moved)) => {
                &&& final(moved)._this.is_null()
                &&& match live(querier) {
                    Some(state) => listener_installed(
                        declare,
                        state.shared,
                        state.keyexpr.state->0.keyexpr@,
                        MatchingScope::Queryables,
                        moved._this,
                        *final(slot),
                        r,
                    ),
                    None => listener_refused(moved._this, *final(slot), r),
                }
            },
            (Some(slot), None) => r == (Z_ENULL, None::<DropCall>) && *final(slot) == *slot,
            (None, Some(moved)) => r == (Z_ENULL, None::<DropCall>) && *final(moved) == *moved,
            (None, None) => r == (Z_ENULL, None::<DropCall>),
        },
{
    match (matching_listener, callback) {
        (Some(slot), Some(moved)) => {
            let closure = adopt(moved);
            let watched = querier_watch(querier);
            install_listener(slot, watched, MatchingScope::Queryables, closure, declare)
        },
        _ => (Z_ENULL, None),
    }
}

/// What a listener needs of an advanced publisher.
pub struct AdvancedPublisherState {
    pub shared: u64,
    pub keyexpr: String,
}

/// A borrowed advanced publisher.
pub type ze_loaned_advanced_publisher_t = Owned<AdvancedPublisherState>;

fn advanced_watch(publisher: Option<&ze_loaned_advanced_publisher_t>) -> (watched: Option<
    (u64, &str),
>)
    ensures
        match live(publisher) {
            Some(state) => watched is Some && (watched->0).0 == state.shared && (watched->0).1@
                == state.keyexpr@,
            None => watched is None,
        },
{
    match state_of(publisher) {
        Some(state) => Some((state.shared, state.keyexpr.as_str())),
        None => None,
    }
}

/// Declares an owned listener on an advanced publisher.
pub fn ze_advanced_publisher_declare_matching_listener<D: FnOnce(MatchingDeclaration) -> u64>(
    publisher: Option<&ze_loaned_advanced_publisher_t>,
    matching_listener: Option<&mut z_owned_matching_listener_t>,
    callback: Option<&mut z_moved_closure_matching_status_t>,
    declare: D,
) -> (r: (ZResult, Option<DropCall>))
    requires
        (live(publisher), matching_listener, callback) matches (
            Some(state),
            Some(_),
            Some(moved),
        ) ==> may_declare(
            declare,
            state.shared,
            state.keyexpr@,
            MatchingScope::Subscribers,
            moved._this,
        ),
    ensures
        match (matching_listener, callback) {
            (Some(slot), Some(moved)) => {
                &&& final(moved)._this.is_null()
                &&& match live(publisher) {
                    Some(state) => listener_installed(
                        declare,
                        state.shared,
                        state.keyexpr@,
                        MatchingScope::Subscribers,
                        moved._this,
                        *final(slot),
                        r,
                    ),
                    None => listener_refused(moved._this, *final(slot), r),
                }
            },
            (Some(slot), None) => r == (Z_ENULL, None::<DropCall>) && *final(slot) == *slot,
            (None, Some(moved)) => r == (Z_ENULL, None::<DropCall>) && *final(moved) == *moved,
            (None, None) => r == (Z_ENULL, None::<DropCall>),
        },
{
    match (matching_listener, callback) {
        (Some(slot), Some(moved)) => {
            let closure = adopt(moved);
            let watched = advanced_watch(publisher);
            install_listener(slot, watched, MatchingScope::Subscribers, closure, declare)
        },
        _ => (Z_ENULL, None),
    }
}

/// What declaring a listener that an advanced publisher is to keep came to.
pub struct KeptListener {
    pub code: ZResult,
    /// The closure's drop, where nothing was declared.
    pub due: Option<DropCall>,
    /// The listener, to be retracted when the publisher is dropped and not sooner.
    pub hold: Option<MatchingHold>,
}

/// Declares a listener on an advanced publisher that the caller never holds. It
/// is the publisher's to keep.
pub fn ze_advanced_publisher_declare_background_matching_listener<
    D: FnOnce(MatchingDeclaration) -> u64,
>(
    publisher: Option<&ze_loaned_advanced_publisher_t>,
    callback: Option<&mut z_moved_closure_matching_status_t>,
    declare: D,
) -> (r: KeptListener)
    requires
        (live(publisher), callback) matches (Some(state), Some(moved)) ==> may_declare(
            declare,
            state.shared,
            state.keyexpr@,
            MatchingScope::Subscribers,
            moved._this,
        ),
    ensures
        match callback {
            Some(moved) => {
                &&& final(moved)._this.is_null()
                &&& match live(publisher) {
                    Some(state) => {
                        &&& r.code == Z_OK
                        &&& r.due is None
                        &&& r.hold is Some
                        &&& r.hold->0.shared == state.shared
                        &&& listener_declare_says(
                            declare,
                            state.shared,
                            state.keyexpr@,
                            MatchingScope::Subscribers,
                            moved._this,
                            r.hold->0.id,
                        )
                    },
                    None => {
                        &&& r.code == Z_ENULL
                        &&& r.due == moved._this.drop_call()
                        &&& r.hold is None
                    },
                }
            },
            None => r.code == Z_ENULL && r.due is None && r.hold is None,
        },
{
    let mut sink: z_owned_matching_listener_t = Owned::null_value();
    let (code, due) = ze_advanced_publisher_declare_matching_listener(
        publisher,
        Some(&mut sink),
        callback,
        declare,
    );
    let hold = match sink.state {
        Some(state) => Some(MatchingHold::new(state.shared, state.id)),
        None => None,
    };
    KeptListener { code, due, hold }
}

/// Whether `has_matching`, asked about a text on a session, may answer `answer`.
pub open spec fn matching_says<H: FnOnce(u64, &str, MatchingScope) -> bool>(
    has_matching: H,
    session: u64,
    text: Seq<char>,
    scope: MatchingScope,
    answer: bool,
) -> bool {
    exists|t: &str|
        t@ == text && #[trigger] call_ensures(has_matching, (session, t, scope), answer)
}

/// Whether `has_matching` may be asked about a text on a session.
pub open spec fn may_poll<H: FnOnce(u64, &str, MatchingScope) -> bool>(
    has_matching: H,
    session: u64,
    text: Seq<char>,
    scope: MatchingScope,
) -> bool {
    forall|s: u64, t: &str|
        s == session && t@ == text ==> #[trigger] call_requires(has_matching, (s, t, scope))
}

fn poll<H: FnOnce(u64, &str, MatchingScope) -> bool>(
    status: &mut z_matching_status_t,
    watched: Option<(u64, &str)>,
    scope: MatchingScope,
    has_matching: H,
) -> (code: ZResult)
    requires
        watched matches Some((session, text)) ==> may_poll(has_matching, session, text@, scope),
    ensures
        match watched {
            Some((session, text)) => code == Z_OK && matching_says(
                has_matching,
                session,
                text@,
                scope,
                final(status).matching,
            ),
            None => code == Z_ENULL && !final(status).matching,
        },
{
    status.matching = false;
    match watched {
        None => Z_ENULL,
        Some((session, text)) => {
            let answer: bool = has_matching(session, text, scope);
            assert(call_ensures(has_matching, (session, text, scope), answer));
            status.matching = answer;
            Z_OK
        },
    }
}

/// Asks whether anyone receives what a publisher publishes. A dead one has nobody.
pub fn z_publisher_get_matching_status<H: FnOnce(u64, &str, MatchingScope) -> bool>(
    this_: Option<&z_loaned_publisher_t>,
    matching_status: Option<&mut z_matching_status_t>,
    has_matching: H,
) -> (code: ZResult)
    requires
        live(this_) matches Some(state) ==> state.wf(),
        (live(this_), matching_status) matches (Some(state), Some(_)) ==> may_poll(
            has_matching,
            state.shared,
            state.keyexpr.state->0.keyexpr@,
            MatchingScope::Subscribers,
        ),
    ensures
        match matching_status {
            None => code == Z_ENULL,
            Some(status) => match live(this_) {
                Some(state) => code == Z_OK && matching_says(
                    has_matching,
                    state.shared,
                    state.keyexpr.state->0.keyexpr@,
                    MatchingScope::Subscribers,
                    final(status).matching,
                ),
                None => code == Z_ENULL && !final(status).matching,
            },
        },
{
    match matching_status {
        None => Z_ENULL,
        Some(status) => poll(status, publisher_watch(this_), MatchingScope::Subscribers, has_matching),
    }
}

/// Asks whether anyone answers what a querier asks. A dead one has nobody.
pub fn z_querier_get_matching_status<H: FnOnce(u64, &str, MatchingScope) -> bool>(
    this_: Option<&z_loaned_querier_t>,
    matching_status: Option<&mut z_matching_status_t>,
    has_matching: H,
) -> (code: ZResult)
    requires
        live(this_) matches Some(state) ==> state.wf(),
        (live(this_), matching_status) matches (Some(state), Some(_)) ==> may_poll(
            has_matching,
            state.shared,
            state.keyexpr.state->0.keyexpr@,
            MatchingScope::Queryables,
        ),
    ensures
        match matching_status {
            None => code == Z_ENULL,
            Some(status) => match live(this_) {
                Some(state) => code == Z_OK && matching_says(
                    has_matching,
                    state.shared,
                    state.keyexpr.state->0.keyexpr@,
                    MatchingScope::Queryables,
                    final(status).matching,
                ),
                None => code == Z_ENULL && !final(status).matching,
            },
        },
{
    match matching_status {
        None => Z_ENULL,
        Some(status) => poll(status, querier_watch(this_), MatchingScope::Queryables, has_matching),
    }
}

/// Asks whether anyone receives what an advanced publisher publishes.
pub fn ze_advanced_publisher_get_matching_status<H: FnOnce(u64, &str, MatchingScope) -> bool>(
    this_: Option<&ze_loaned_advanced_publisher_t>,
    matching_status: Option<&mut z_matching_status_t>,
    has_matching: H,
) -> (code: ZResult)
    requires
        (live(this_), matching_status) matches (Some(state), Some(_)) ==> may_poll(
            has_matching,
            state.shared,
            state.keyexpr@,
            MatchingScope::Subscribers,
        ),
    ensures
        match matching_status {
            None => code == Z_ENULL,
            Some(status) => match live(this_) {
                Some(state) => code == Z_OK && matching_says(
                    has_matching,
                    state.shared,
                    state.keyexpr@,
                    MatchingScope::Subscribers,
                    final(status).matching,
                ),
                None => code == Z_ENULL && !final(status).matching,
            },
        },
{
    match matching_status {
        None => Z_ENULL,
        Some(status) => poll(status, advanced_watch(this_), MatchingScope::Subscribers, has_matching),
    }
}

/// The retraction that giving up a listener calls for.
pub open spec fn listener_hold(state: Option<ListenerState>) -> Option<MatchingHold> {
    match state {
        Some(state) => Some(MatchingHold { shared: state.shared, id: state.id }),
        None => None,
    }
}

/// Drops a listener: it is to be retracted where it was live. A second drop of the
/// same slot finds nothing.
pub fn z_matching_listener_drop(this_: Option<&mut z_moved_matching_listener_t>) -> (retired: Option<
    MatchingHold,
>)
    ensures
        match this_ {
            Some(moved) => {
                &&& final(moved)._this.state is None
                &&& retired == listener_hold(moved._this.state)
            },
            None => retired is None,
        },
{
    match take(this_) {
        Some(state) => Some(MatchingHold::new(state.shared, state.id)),
        None => None,
    }
}

/// Undeclares a listener, which is dropping it.
pub fn z_undeclare_matching_listener(this_: Option<&mut z_moved_matching_listener_t>) -> (r: (
    ZResult,
    Option<MatchingHold>,
))
    ensures
        r.0 == Z_OK,
        match this_ {
            Some(moved) => {
                &&& final(moved)._this.state is None
                &&& r.1 == listener_hold(moved._this.state)
            },
            None => r.1 is None,
        },
{
    (Z_OK, z_matching_listener_drop(this_))
}

/// Whether an owned listener is live.
pub fn z_internal_matching_listener_check(this_: Option<&z_owned_matching_listener_t>) -> (r: bool)
    ensures
        r == (live(this_) is Some),
{
    is_live(this_)
}

/// Makes an owned listener the gravestone.
pub fn z_internal_matching_listener_null(this_: Option<&mut z_owned_matching_listener_t>)
    ensures
        this_ matches Some(slot) ==> final(slot).state is None,
{
    gravestone(this_)
}

/// The listener that is carried once `holds` were attached one after another.
pub open spec fn carried_after(holds: Seq<MatchingHold>) -> Option<MatchingHold> {
    if holds.len() == 0 {
        None
    } else {
        Some(holds.last())
    }
}

/// The listeners that were retired while `holds` were attached one after another:
/// each attachment retires what was carried before it.
pub open spec fn retired_so_far(holds: Seq<MatchingHold>) -> Seq<MatchingHold>
    decreases holds.len(),
{
    if holds.len() == 0 {
        Seq::empty()
    } else {
        match carried_after(holds.drop_last()) {
            Some(hold) => retired_so_far(holds.drop_last()).push(hold),
            None => retired_so_far(holds.drop_last()),
        }
    }
}

/// Every listener that was attached to a publisher or a querier is retired once:
/// by the one that supersedes it, or, the last one, with what carried it.
pub proof fn lemma_every_attached_listener_is_retired_once(holds: Seq<MatchingHold>)
    ensures
        match carried_after(holds) {
            Some(hold) => retired_so_far(holds).push(hold) == holds,
            None => holds.len() == 0 && retired_so_far(holds).len() == 0,
        },
    decreases holds.len(),
{
    if holds.len() > 0 {
        lemma_every_attached_listener_is_retired_once(holds.drop_last());
        assert(retired_so_far(holds) =~= holds.drop_last());
        assert(retired_so_far(holds).push(holds.last()) =~= holds);
    }
}

/// Declaring a background listener on a publisher that carries the last of `holds`
/// leaves it carrying the new one, and retires the one before.
pub proof fn lemma_a_declaration_attaches_one_listener<D: FnOnce(MatchingDeclaration) -> u64>(
    declare: D,
    before: PublisherState,
    after: PublisherState,
    closure: CClosure,
    r: BackgroundListener,
    holds: Seq<MatchingHold>,
)
    requires
        before.matching == carried_after(holds),
        publisher_listener_attached(declare, before, after, closure, r),
    ensures
        after.matching == carried_after(holds.push(after.matching->0)),
        retired_so_far(holds.push(after.matching->0)) == (match r.retired {
            Some(hold) => retired_so_far(holds).push(hold),
            None => retired_so_far(holds),
        }),
{
    assert(holds.push(after.matching->0).drop_last() =~= holds);
}

} // verus!
