//! Liveliness: tokens that say who is there, and what watches for them.
//!
//! Dropping a token retracts it, and undeclaring one is dropping it. A token that
//! appears reaches a subscriber as a sample that puts an empty payload, and one
//! that goes away as a sample that deletes.

use vstd::prelude::*;

use crate::closure::adopt;
use crate::closure::CClosure;
use crate::closure::DropCall;
use crate::closure::Invocation;
use crate::closure::MovedClosure;
use crate::handle::gravestone;
use crate::handle::is_live;
use crate::handle::live;
use crate::handle::state_of;
use crate::handle::take;
use crate::handle::Moved;
use crate::handle::Owned;
use crate::keyexpr::keyexpr_str;
use crate::keyexpr::text_of;
use crate::keyexpr::z_loaned_keyexpr_t;
use crate::qos::SampleKind;
use crate::querier::saturate_timeout;
use crate::querier::saturated;
use crate::query::ask_outbound;
use crate::query::may_ask;
use crate::query::outbound_says;
use crate::result::ZResult;
use crate::result::Z_EINVAL;
use crate::result::Z_ENULL;
use crate::result::Z_EUNAVAILABLE;
use crate::result::Z_OK;
use crate::sample::kind_number;
use crate::sample::sample_kind_of;
use crate::sample::z_sample_kind_t;
use crate::sample::SampleMarshal;
use crate::session::z_loaned_session_t;

verus! {

/// How a token is declared: there is nothing to choose.
#[derive(Clone, Copy, Debug, PartialEq, Eq, Structural)]
pub struct z_liveliness_token_options_t {
    /// Never read.
    pub _dummy: u8,
}

/// How tokens are watched for.
#[derive(Clone, Copy, Debug, PartialEq, Eq, Structural)]
pub struct z_liveliness_subscriber_options_t {
    /// Whether tokens declared before are told of too.
    pub history: bool,
}

/// How the tokens alive are asked for.
#[derive(Clone, Copy, Debug, PartialEq, Eq, Structural)]
pub struct z_liveliness_get_options_t {
    /// In milliseconds; 0 is the default, not forever.
    pub timeout_ms: u64,
}

/// Fills in the default token options.
pub fn z_liveliness_token_options_default(this_: Option<&mut z_liveliness_token_options_t>)
    ensures
        this_ matches Some(slot) ==> *final(slot) == (z_liveliness_token_options_t { _dummy: 0 }),
{
    if let Some(slot) = this_ {
        *slot = z_liveliness_token_options_t { _dummy: 0 };
    }
}

/// Fills in the default subscriber options: nothing of the past.
pub fn z_liveliness_subscriber_options_default(
    this_: Option<&mut z_liveliness_subscriber_options_t>,
)
    ensures
        this_ matches Some(slot) ==> *final(slot) == (z_liveliness_subscriber_options_t {
            history: false,
        }),
{
    if let Some(slot) = this_ {
        *slot = z_liveliness_subscriber_options_t { history: false };
    }
}

/// Fills in the default get options.
pub fn z_liveliness_get_options_default(this_: Option<&mut z_liveliness_get_options_t>)
    ensures
        this_ matches Some(slot) ==> *final(slot) == (z_liveliness_get_options_t {
            timeout_ms: 0,
        }),
{
    if let Some(slot) = this_ {
        *slot = z_liveliness_get_options_t { timeout_ms: 0 };
    }
}

/// A declared token.
#[derive(Clone, Copy, Debug, PartialEq, Eq, Structural)]
pub struct TokenState {
    pub shared: u64,
    pub id: u64,
}

/// An owned token.
pub type z_owned_liveliness_token_t = Owned<TokenState>;

/// A borrowed token: the same slot.
pub type z_loaned_liveliness_token_t = Owned<TokenState>;

/// A token on its way to be consumed.
pub type z_moved_liveliness_token_t = Moved<TokenState>;

/// Whether `declare`, asked for a token under a text, may answer `id`.
pub open spec fn token_declare_says<D: FnOnce(u64, String) -> Option<u64>>(
    declare: D,
    session: u64,
    text: Seq<char>,
    id: Option<u64>,
) -> bool {
    exists|k: String| k@ == text && #[trigger] call_ensures(declare, (session, k), id)
}

/// What declaring a token on a live session comes to.
pub open spec fn token_declared<O: Fn(&str) -> bool, D: FnOnce(u64, String) -> Option<u64>>(
    outbound: O,
    declare: D,
    session: u64,
    text: Seq<char>,
    slot: z_owned_liveliness_token_t,
    code: ZResult,
) -> bool {
    if code == Z_OK {
        &&& outbound_says(outbound, text, true)
        &&& slot.state is Some
        &&& slot.state->0.shared == session
        &&& token_declare_says(declare, session, text, Some(slot.state->0.id))
    } else if code == Z_EUNAVAILABLE {
        &&& outbound_says(outbound, text, true)
        &&& slot.state is None
        &&& token_declare_says(declare, session, text, None)
    } else {
        &&& code == Z_EINVAL
        &&& outbound_says(outbound, text, false)
        &&& slot.state is None
    }
}

/// Declares a token. `outbound` tells which texts may go on the wire, and
/// `declare` makes the session declare, which answers with no id where it cannot.
pub fn z_liveliness_declare_token<O: Fn(&str) -> bool, D: FnOnce(u64, String) -> Option<u64>>(
    session: Option<&z_loaned_session_t>,
    token: Option<&mut z_owned_liveliness_token_t>,
    key_expr: Option<&z_loaned_keyexpr_t>,
    _options: Option<&z_liveliness_token_options_t>,
    outbound: &O,
    declare: D,
) -> (code: ZResult)
    requires
        text_of(key_expr) matches Some(text) ==> may_ask(*outbound, text),
        (token, live(session), text_of(key_expr)) matches (
            Some(_),
            Some(state),
            Some(text),
        ) ==> forall|s: u64, k: String|
            s == state.shared && k@ == text && outbound_says(*outbound, text, true)
                ==> #[trigger] call_requires(declare, (s, k)),
    ensures
        match token {
            None => code == Z_ENULL,
            Some(slot) => match (live(session), text_of(key_expr)) {
                (Some(state), Some(text)) => token_declared(
                    *outbound,
                    declare,
                    state.shared,
                    text,
                    *final(slot),
                    code,
                ),
                _ => code == Z_ENULL && final(slot).state is None,
            },
        },
{
    let slot = match token {
        Some(slot) => slot,
        None => {
            return Z_ENULL;
        },
    };
    slot.state = None;
    match (state_of(session), keyexpr_str(key_expr)) {
        (Some(state), Some(text)) => {
            if !ask_outbound(text, outbound) {
                return Z_EINVAL;
            }
            let keyexpr = text.to_owned();
            let ghost asked = keyexpr;
            let id = declare(state.shared, keyexpr);
            assert(call_ensures(declare, (state.shared, asked), id));
            match id {
                Some(id) => {
                    slot.state = Some(TokenState { shared: state.shared, id });
                    Z_OK
                },
                None => Z_EUNAVAILABLE,
            }
        },
        _ => Z_ENULL,
    }
}

/// Undeclares a token: the retraction to make, where it was live.
pub fn z_liveliness_undeclare_token(this_: Option<&mut z_moved_liveliness_token_t>) -> (r: (
    ZResult,
    Option<TokenState>,
))
    ensures
        r.0 == Z_OK,
        match this_ {
            Some(moved) => r.1 == moved._this.state && final(moved)._this.state is None,
            None => r.1 is None,
        },
{
    (Z_OK, take(this_))
}

/// Drops a token, which undeclares it.
pub fn z_liveliness_token_drop(this_: Option<&mut z_moved_liveliness_token_t>) -> (due: Option<
    TokenState,
>)
    ensures
        match this_ {
            Some(moved) => due == moved._this.state && final(moved)._this.state is None,
            None => due is None,
        },
{
    z_liveliness_undeclare_token(this_).1
}

/// Borrows a token.
pub fn z_liveliness_token_loan(this_: Option<&z_owned_liveliness_token_t>) -> (loaned: Option<
    &z_loaned_liveliness_token_t,
>)
    ensures
        loaned == this_,
{
    this_
}

/// Whether an owned token is declared.
pub fn z_internal_liveliness_token_check(this_: Option<&z_owned_liveliness_token_t>) -> (r: bool)
    ensures
        r == (live(this_) is Some),
{
    is_live(this_)
}

/// Makes an owned token the gravestone.
pub fn z_internal_liveliness_token_null(this_: Option<&mut z_owned_liveliness_token_t>)
    ensures
        this_ matches Some(slot) ==> final(slot).state is None,
{
    gravestone(this_)
}

/// The number of a sample that tells of a token: it appears, or it goes away.
pub fn liveliness_kind_of(kind: SampleKind) -> (number: z_sample_kind_t)
    ensures
        number == kind_number(kind),
{
    sample_kind_of(kind)
}

/// What telling a subscriber of a token takes.
pub struct LivelinessDelivery {
    pub invocation: Invocation,
    pub sample: SampleMarshal,
}

/// What a subscriber's closure is called with when a token under `keyexpr`
/// appears or goes away: a sample whose kind is all it says.
pub fn liveliness_delivery(closure: &CClosure, keyexpr: &str, kind: SampleKind) -> (due: Option<
    LivelinessDelivery,
>)
    ensures
        match closure.invocation() {
            Some(invocation) => {
                &&& due is Some
                &&& due->0.invocation == invocation
                &&& due->0.sample.wf()
                &&& due->0.sample.bound
                &&& due->0.sample.holds(
                    keyexpr@,
                    Seq::empty(),
                    None,
                    kind_number(kind),
                    None,
                )
            },
            None => due is None,
        },
{
    match closure.invoke() {
        None => None,
        Some(invocation) => {
            let mut sample = SampleMarshal::new(
                keyexpr.to_owned(),
                Vec::new(),
                None,
                liveliness_kind_of(kind),
                None,
            );
            sample.bind();
            Some(LivelinessDelivery { invocation, sample })
        },
    }
}

/// A subscription to tokens, to be declared on a session.
pub struct LivelinessDeclaration {
    pub session: u64,
    pub keyexpr: String,
    pub history: bool,
    pub closure: CClosure,
}

/// What stands behind a subscriber handle.
#[derive(Clone, Copy, Debug, PartialEq, Eq, Structural)]
pub struct SubscriberState {
    pub shared: u64,
    pub id: u64,
}

/// An owned subscriber.
pub type z_owned_subscriber_t = Owned<SubscriberState>;

/// A sample closure on its way to be consumed.
pub type z_moved_closure_sample_t = MovedClosure;

/// Whether tokens of the past are asked for. Without options they are not.
pub open spec fn wants_history(options: Option<&z_liveliness_subscriber_options_t>) -> bool {
    options matches Some(o) && o.history
}

/// Whether a declaration asks for this subscription.
pub open spec fn declares_subscriber(
    declaration: LivelinessDeclaration,
    session: u64,
    text: Seq<char>,
    history: bool,
    closure: CClosure,
) -> bool {
    &&& declaration.session == session
    &&& declaration.keyexpr@ == text
    &&& declaration.history == history
    &&& declaration.closure == closure
}

/// Whether `declare`, asked for this subscription, may answer `id`.
pub open spec fn liveliness_declare_says<D: FnOnce(LivelinessDeclaration) -> u64>(
    declare: D,
    session: u64,
    text: Seq<char>,
    history: bool,
    closure: CClosure,
    id: u64,
) -> bool {
    exists|d: LivelinessDeclaration|
        declares_subscriber(d, session, text, history, closure) && #[trigger] call_ensures(
            declare,
            (d,),
            id,
        )
}

/// What subscribing to tokens on a live session comes to.
pub open spec fn liveliness_subscribed<
    O: Fn(&str) -> bool,
    D: FnOnce(LivelinessDeclaration) -> u64,
>(
    outbound: O,
    declare: D,
    session: u64,
    text: Seq<char>,
    history: bool,
    closure: CClosure,
    slot: z_owned_subscriber_t,
    r: (ZResult, Option<DropCall>),
) -> bool {
    if r.0 == Z_OK {
        &&& r.1 is None
        &&& outbound_says(outbound, text, true)
        &&& slot.state is Some
        &&& slot.state->0.shared == session
        &&& liveliness_declare_says(declare, session, text, history, closure, slot.state->0.id)
    } else {
        &&& r == (Z_EINVAL, closure.drop_call())
        &&& outbound_says(outbound, text, false)
        &&& slot.state is None
    }
}

/// Subscribes to tokens. The closure is consumed on every path; where nothing is
/// declared, its drop function is due.
pub fn z_liveliness_declare_subscriber<
    O: Fn(&str) -> bool,
    D: FnOnce(LivelinessDeclaration) -> u64,
>(
    session: Option<&z_loaned_session_t>,
    subscriber: Option<&mut z_owned_subscriber_t>,
    key_expr: Option<&z_loaned_keyexpr_t>,
    callback: Option<&mut z_moved_closure_sample_t>,
    options: Option<&z_liveliness_subscriber_options_t>,
    outbound: &O,
    declare: D,
) -> (r: (ZResult, Option<DropCall>))
    requires
        text_of(key_expr) matches Some(text) ==> may_ask(*outbound, text),
        (subscriber, callback, live(session), text_of(key_expr)) matches (
            Some(_),
            Some(moved),
            Some(state),
            Some(text),
        ) ==> forall|d: LivelinessDeclaration|
            declares_subscriber(d, state.shared, text, wants_history(options), moved._this)
                && outbound_says(*outbound, text, true) ==> #[trigger] call_requires(
                declare,
                (d,),
            ),
    ensures
        match (subscriber, callback) {
            (Some(slot), Some(moved)) => {
                &&& final(moved)._this.is_null()
                &&& match (live(session), text_of(key_expr)) {
                    (Some(state), Some(text)) => liveliness_subscribed(
                        *outbound,
                        declare,
                        state.shared,
                        text,
                        wants_history(options),
                        moved._this,
                        *final(slot),
                        r,
                    ),
                    _ => {
                        &&& r == (Z_ENULL, moved._this.drop_call())
                        &&& final(slot).state is None
                    },
                }
            },
            (Some(slot), None) => r == (Z_ENULL, None::<DropCall>) && *final(slot) == *slot,
            (None, Some(moved)) => r == (Z_ENULL, None::<DropCall>) && *final(moved) == *moved,
            (None, None) => r == (Z_ENULL, None::<DropCall>),
        },
{
    let (slot, moved) = match (subscriber, callback) {
        (Some(slot), Some(moved)) => (slot, moved),
        _ => {
            return (Z_ENULL, None);
        },
    };
    slot.state = None;
    let closure = adopt(moved);
    match (state_of(session), keyexpr_str(key_expr)) {
        (Some(state), Some(text)) => {
            if !ask_outbound(text, outbound) {
                return (Z_EINVAL, closure.dropping());
            }
            let history = match options {
                Some(o) => o.history,
                None => false,
            };
            let declaration = LivelinessDeclaration {
                session: state.shared,
                keyexpr: text.to_owned(),
                history,
                closure,
            };
            let ghost asked = declaration;
            let id: u64 = declare(declaration);
            assert(call_ensures(declare, (asked,), id));
            slot.state = Some(SubscriberState { shared: state.shared, id });
            (Z_OK, None)
        },
        _ => (Z_ENULL, closure.dropping()),
    }
}

/// Which replies to a query are let through: those under a key that meets the
/// query's, or all of them.
pub struct ReplyGate {
    pub query_keyexpr: String,
    pub anyke: bool,
}

/// A request for the tokens alive, to be issued on one face of a session.
pub struct LivelinessRequest {
    pub face: u64,
    pub keyexpr: String,
    /// In milliseconds; 0 is the default.
    pub timeout_ms: u32,
    pub gate: ReplyGate,
    pub closure: CClosure,
}

/// What asking for the tokens alive came to.
pub struct LivelinessGet {
    pub code: ZResult,
    /// The closure's drop, where nothing is issued: it tells the caller that the
    /// get is over. Otherwise it is due once every request has ended.
    pub due: Option<DropCall>,
    /// What is to be issued.
    pub requests: Vec<LivelinessRequest>,
}

/// Whether a request asks one face for the tokens under a text.
pub open spec fn asks_for_tokens(
    request: LivelinessRequest,
    face: u64,
    text: Seq<char>,
    timeout_ms: u32,
    closure: CClosure,
) -> bool {
    &&& request.face == face
    &&& request.keyexpr@ == text
    &&& request.timeout_ms == timeout_ms
    &&& request.gate.query_keyexpr@ == text
    &&& !request.gate.anyke
    &&& request.closure == closure
}

/// Whether each face is asked, once, in order.
pub open spec fn asks_every_face(
    requests: Seq<LivelinessRequest>,
    faces: Seq<u64>,
    text: Seq<char>,
    timeout_ms: u32,
    closure: CClosure,
) -> bool {
    &&& requests.len() == faces.len()
    &&& forall|i: int|
        0 <= i < faces.len() ==> asks_for_tokens(
            #[trigger] requests[i],
            faces[i],
            text,
            timeout_ms,
            closure,
        )
}

/// The timeout of a get. Without options it is the default.
pub open spec fn get_timeout(options: Option<&z_liveliness_get_options_t>) -> u32 {
    match options {
        Some(o) => saturated(o.timeout_ms),
        None => 0,
    }
}

fn requests_for(faces: &Vec<u64>, text: &str, timeout_ms: u32, closure: CClosure) -> (requests: Vec<
    LivelinessRequest,
>)
    ensures
        asks_every_face(requests@, faces@, text@, timeout_ms, closure),
{
    let mut requests: Vec<LivelinessRequest> = Vec::new();
    let mut i: usize = 0;
    while i < faces.len()
        invariant
            i <= faces@.len(),
            asks_every_face(requests@, faces@.take(i as int), text@, timeout_ms, closure),
        decreases faces@.len() - i,
    {
        requests.push(
            LivelinessRequest {
                face: faces[i],
                keyexpr: text.to_owned(),
                timeout_ms,
                gate: ReplyGate { query_keyexpr: text.to_owned(), anyke: false },
                closure,
            },
        );
        i = i + 1;
        assert(faces@.take(i as int).drop_last() =~= faces@.take(i as int - 1));
        assert forall|j: int| 0 <= j < i implies asks_for_tokens(
            #[trigger] requests@[j],
            faces@.take(i as int)[j],
            text@,
            timeout_ms,
            closure,
        ) by {
            if j < i - 1 {
                assert(faces@.take(i as int)[j] == faces@.take(i as int - 1)[j]);
            }
        }
    }
    assert(faces@.take(i as int) =~= faces@);
    requests
}

/// Asks for the tokens alive, on every connected face of a session. The closure
/// is consumed on every path.
pub fn z_liveliness_get<O: Fn(&str) -> bool>(
    session: Option<&z_loaned_session_t>,
    key_expr: Option<&z_loaned_keyexpr_t>,
    callback: Option<&mut MovedClosure>,
    options: Option<&z_liveliness_get_options_t>,
    faces: &Vec<u64>,
    outbound: &O,
) -> (r: LivelinessGet)
    requires
        text_of(key_expr) matches Some(text) ==> may_ask(*outbound, text),
    ensures
        r.code != Z_OK ==> r.requests@.len() == 0,
        match callback {
            None => r.code == Z_ENULL && r.due is None,
            Some(moved) => {
                &&& final(moved)._this.is_null()
                &&& match (live(session), text_of(key_expr)) {
                    (Some(_), Some(text)) => if r.code == Z_OK {
                        &&& outbound_says(*outbound, text, true)
                        &&& asks_every_face(
                            r.requests@,
                            faces@,
                            text,
                            get_timeout(options),
                            moved._this,
                        )
                        &&& r.due == (if faces@.len() == 0 {
                            moved._this.drop_call()
                        } else {
                            None
                        })
                    } else {
                        &&& r.code == Z_EINVAL
                        &&& outbound_says(*outbound, text, false)
                        &&& r.due == moved._this.drop_call()
                    },
                    _ => r.code == Z_ENULL && r.due == moved._this.drop_call(),
                }
            },
        },
{
    let closure = match callback {
        Some(moved) => adopt(moved),
        None => {
            return LivelinessGet { code: Z_ENULL, due: None, requests: Vec::new() };
        },
    };
    match (state_of(session), keyexpr_str(key_expr)) {
        (Some(_), Some(text)) => {
            if !ask_outbound(text, outbound) {
                return LivelinessGet {
                    code: Z_EINVAL,
                    due: closure.dropping(),
                    requests: Vec::new(),
                };
            }
            let timeout_ms: u32 = match options {
                Some(o) => saturate_timeout(o.timeout_ms),
                None => 0,
            };
            let requests = requests_for(faces, text, timeout_ms, closure);
            let due = if faces.len() == 0 {
                closure.dropping()
            } else {
                None
            };
            LivelinessGet { code: Z_OK, due, requests }
        },
        _ => LivelinessGet { code: Z_ENULL, due: closure.dropping(), requests: Vec::new() },
    }
}

} // verus!
