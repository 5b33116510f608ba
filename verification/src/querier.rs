//! Queriers: a key expression and the options of a get, declared once.

use vstd::prelude::*;

use crate::bytes::payload_of;
use crate::bytes::take_payload;
use crate::bytes::z_moved_bytes_t;
use crate::closure::adopt;
use crate::closure::CClosure;
use crate::closure::DropCall;
use crate::closure::MovedClosure;
use crate::handle::gravestone;
use crate::handle::is_live;
use crate::handle::live;
use crate::handle::state_of;
use crate::handle::take;
use crate::handle::Moved;
use crate::handle::Owned;
use crate::keyexpr::keyexpr_str;
use crate::keyexpr::text_of;
use crate::keyexpr::z_loaned_keyexpr_t;
use crate::keyexpr::KeyexprState;
use crate::matching::listener_declare_says;
use crate::matching::may_declare;
use crate::matching::z_moved_closure_matching_status_t;
use crate::matching::BackgroundListener;
use crate::matching::MatchingDeclaration;
use crate::matching::MatchingHold;
use crate::matching::MatchingScope;
use crate::meta::moved_encoding_hint;
use crate::meta::run_of;
use crate::meta::same_hint;
use crate::meta::z_moved_encoding_t;
use crate::meta::z_source_info_t;
use crate::meta::EncodingHint;
use crate::publisher::congestion_from_c;
use crate::publisher::congestion_of;
use crate::publisher::priority_from_c;
use crate::publisher::priority_of;
use crate::publisher::z_congestion_control_t;
use crate::publisher::z_priority_t;
use crate::publisher::zc_locality_t;
use crate::publisher::Z_CONGESTION_CONTROL_BLOCK;
use crate::publisher::ZC_LOCALITY_ANY;
use crate::qos::CongestionControl;
use crate::query::ask_outbound;
use crate::query::may_ask;
use crate::query::outbound_says;
use crate::result::ZResult;
use crate::result::Z_EINVAL;
use crate::result::Z_ENULL;
use crate::result::Z_OK;
use crate::session::z_loaned_session_t;

verus! {

/// Replies are asked of whoever fits best.
pub const Z_QUERY_TARGET_BEST_MATCHING: i32 = 0;

/// Replies are consolidated as fits the query.
pub const Z_CONSOLIDATION_MODE_AUTO: i32 = -1;

/// Replies are taken under keys that match the query.
pub const ZC_REPLY_KEYEXPR_MATCHING_QUERY: i32 = 1;

/// How replies are consolidated.
#[derive(Clone, Copy, Debug, PartialEq, Eq, Structural)]
pub struct z_query_consolidation_t {
    pub mode: i32,
}

/// How a querier is declared.
#[derive(Clone, Copy, Debug, PartialEq, Eq, Structural)]
pub struct z_querier_options_t {
    pub target: i32,
    pub consolidation: z_query_consolidation_t,
    pub congestion_control: z_congestion_control_t,
    pub is_express: bool,
    /// Taken and not used.
    pub allowed_destination: zc_locality_t,
    /// Taken and not used.
    pub accept_replies: i32,
    pub priority: z_priority_t,
    /// In milliseconds; 0 is the default.
    pub timeout_ms: u64,
}

/// The default querier options.
pub open spec fn default_querier_options() -> z_querier_options_t {
    z_querier_options_t {
        target: Z_QUERY_TARGET_BEST_MATCHING,
        consolidation: z_query_consolidation_t { mode: Z_CONSOLIDATION_MODE_AUTO },
        congestion_control: Z_CONGESTION_CONTROL_BLOCK,
        is_express: false,
        allowed_destination: ZC_LOCALITY_ANY,
        accept_replies: ZC_REPLY_KEYEXPR_MATCHING_QUERY,
        priority: 5,
        timeout_ms: 0,
    }
}

/// Fills in the default querier options.
pub fn z_querier_options_default(this_: Option<&mut z_querier_options_t>)
    ensures
        this_ matches Some(slot) ==> *final(slot) == default_querier_options(),
{
    if let Some(slot) = this_ {
        *slot = z_querier_options_t {
            target: Z_QUERY_TARGET_BEST_MATCHING,
            consolidation: z_query_consolidation_t { mode: Z_CONSOLIDATION_MODE_AUTO },
            congestion_control: Z_CONGESTION_CONTROL_BLOCK,
            is_express: false,
            allowed_destination: ZC_LOCALITY_ANY,
            accept_replies: ZC_REPLY_KEYEXPR_MATCHING_QUERY,
            priority: 5,
            timeout_ms: 0,
        };
    }
}

/// How a single get is made through a querier.
pub struct z_querier_get_options_t {
    /// The query's payload, consumed.
    pub payload: z_moved_bytes_t,
    /// The payload's encoding. It is read and left with the caller.
    pub encoding: z_moved_encoding_t,
    /// Taken and not used.
    pub source_info: Option<z_source_info_t>,
    /// The query's attachment, consumed.
    pub attachment: z_moved_bytes_t,
}

/// Fills in the default options of a single get.
pub fn z_querier_get_options_default(this_: Option<&mut z_querier_get_options_t>)
    ensures
        this_ matches Some(slot) ==> *final(slot) == (z_querier_get_options_t {
            payload: Moved { _this: Owned { state: None } },
            encoding: Moved { _this: Owned { state: None } },
            source_info: None,
            attachment: Moved { _this: Owned { state: None } },
        }),
{
    if let Some(slot) = this_ {
        *slot = z_querier_get_options_t {
            payload: Moved { _this: Owned { state: None } },
            encoding: Moved { _this: Owned { state: None } },
            source_info: None,
            attachment: Moved { _this: Owned { state: None } },
        };
    }
}

/// What a get is asked with, where its caller said something.
#[derive(Clone, Copy, Debug, PartialEq, Eq, Structural)]
pub struct QuerierBase {
    /// In milliseconds.
    pub timeout_ms: u32,
    /// The runtime keeps its own target for a number that names none.
    pub target: i32,
    /// The runtime keeps its own mode for a number that names none.
    pub consolidation: i32,
    pub priority: u8,
    pub congestion_control: CongestionControl,
    pub express: bool,
}

/// A timeout in the 32 bits the runtime has for it. A longer one is the longest,
/// not a short one.
pub open spec fn saturated(timeout_ms: u64) -> u32 {
    if timeout_ms > u32::MAX {
        u32::MAX
    } else {
        timeout_ms as u32
    }
}

/// A timeout in 32 bits.
pub fn saturate_timeout(timeout_ms: u64) -> (t: u32)
    ensures
        t == saturated(timeout_ms),
{
    if timeout_ms > u32::MAX as u64 {
        u32::MAX
    } else {
        timeout_ms as u32
    }
}

/// A shorter timeout never becomes the longer one, and one that fits stays as it
/// is.
pub proof fn lemma_saturated_timeouts_keep_their_order(a: u64, b: u64)
    requires
        a <= b,
    ensures
        saturated(a) <= saturated(b),
        saturated(a) <= a,
        a <= u32::MAX ==> saturated(a) == a,
{
}

/// What a querier's options come to. Without options every default is the
/// runtime's.
pub open spec fn querier_base(options: Option<&z_querier_options_t>) -> Option<QuerierBase> {
    match options {
        Some(o) => Some(
            QuerierBase {
                timeout_ms: saturated(o.timeout_ms),
                target: o.target,
                consolidation: o.consolidation.mode,
                priority: priority_of(o.priority),
                congestion_control: congestion_of(o.congestion_control),
                express: o.is_express,
            },
        ),
        None => None,
    }
}

/// Resolves a querier's options.
pub fn resolve_querier_options(options: Option<&z_querier_options_t>) -> (base: Option<
    QuerierBase,
>)
    ensures
        base == querier_base(options),
{
    match options {
        Some(o) => Some(
            QuerierBase {
                timeout_ms: saturate_timeout(o.timeout_ms),
                target: o.target,
                consolidation: o.consolidation.mode,
                priority: priority_from_c(o.priority),
                congestion_control: congestion_from_c(o.congestion_control),
                express: o.is_express,
            },
        ),
        None => None,
    }
}

/// What stands behind a querier handle.
pub struct QuerierState {
    pub shared: u64,
    pub keyexpr: z_loaned_keyexpr_t,
    /// What every get starts from.
    pub base: Option<QuerierBase>,
    /// The matching listener that lives and dies with the querier.
    pub matching: Option<MatchingHold>,
}

/// An owned querier.
pub type z_owned_querier_t = Owned<QuerierState>;

/// A borrowed querier: the same slot.
pub type z_loaned_querier_t = Owned<QuerierState>;

/// A querier on its way to be consumed.
pub type z_moved_querier_t = Moved<QuerierState>;

impl QuerierState {
    /// The querier has a key expression.
    pub open spec fn wf(&self) -> bool {
        self.keyexpr.state is Some
    }

    /// Records a matching listener. The one it replaces is to be retracted.
    pub fn attach_matching(&mut self, hold: MatchingHold) -> (retired: Option<MatchingHold>)
        ensures
            retired == old(self).matching,
            *final(self) == (QuerierState { matching: Some(hold), ..*old(self) }),
    {
        let retired = self.matching;
        self.matching = Some(hold);
        retired
    }
}

/// A querier declared with these values.
pub open spec fn is_querier(
    slot: z_owned_querier_t,
    session: u64,
    text: Seq<char>,
    base: Option<QuerierBase>,
) -> bool {
    &&& slot.state is Some
    &&& slot.state->0.wf()
    &&& slot.state->0.shared == session
    &&& slot.state->0.matching is None
    &&& slot.state->0.keyexpr.state->0.keyexpr@ == text
    &&& slot.state->0.keyexpr.state->0.mapping is None
    &&& slot.state->0.base == base
}

/// Declares a querier.
pub fn z_declare_querier<O: Fn(&str) -> bool>(
    session: Option<&z_loaned_session_t>,
    querier: Option<&mut z_owned_querier_t>,
    key_expr: Option<&z_loaned_keyexpr_t>,
    options: Option<&z_querier_options_t>,
    outbound: &O,
) -> (code: ZResult)
    requires
        text_of(key_expr) matches Some(text) ==> may_ask(*outbound, text),
    ensures
        match querier {
            None => code == Z_ENULL,
            Some(slot) => match (live(session), text_of(key_expr)) {
                (Some(state), Some(text)) => if code == Z_OK {
                    &&& outbound_says(*outbound, text, true)
                    &&& is_querier(*final(slot), state.shared, text, querier_base(options))
                } else {
                    &&& code == Z_EINVAL
                    &&& outbound_says(*outbound, text, false)
                    &&& final(slot).state is None
                },
                _ => code == Z_ENULL && final(slot).state is None,
            },
        },
{
    let slot = match querier {
        Some(slot) => slot,
        None => {
            return Z_ENULL;
        },
    };
    slot.state = None;
    match (state_of(session), keyexpr_str(key_expr)) {
        (Some(state), Some(text)) => {
            if !ask_outbound(text, outbound) {
                return Z_EINVAL;
            }
            slot.state = Some(
                QuerierState {
                    shared: state.shared,
                    keyexpr: Owned::from_state(KeyexprState::new(text.to_owned())),
                    base: resolve_querier_options(options),
                    matching: None,
                },
            );
            Z_OK
        },
        _ => Z_ENULL,
    }
}

/// Borrows a querier.
pub fn z_querier_loan(this_: Option<&z_owned_querier_t>) -> (loaned: Option<&z_loaned_querier_t>)
    ensures
        loaned == this_,
{
    this_
}

/// A get to be issued on a session.
pub struct GetRequest {
    pub session: u64,
    pub keyexpr: String,
    pub parameters: Option<Vec<u8>>,
    pub base: Option<QuerierBase>,
    pub payload: Option<Vec<u8>>,
    pub encoding: Option<EncodingHint>,
    pub attachment: Option<Vec<u8>>,
    pub closure: CClosure,
}

/// What a single get takes out of its options.
pub open spec fn get_values(options: Option<z_querier_get_options_t>) -> (
    Option<Vec<u8>>,
    Option<EncodingHint>,
    Option<Vec<u8>>,
) {
    match options {
        Some(o) => (
            payload_of(o.payload._this),
            o.encoding._this.state,
            payload_of(o.attachment._this),
        ),
        None => (None, None, None),
    }
}

/// Options with what they owned consumed.
pub open spec fn consumed_get_options(o: z_querier_get_options_t) -> z_querier_get_options_t {
    z_querier_get_options_t {
        payload: Moved { _this: Owned { state: None } },
        attachment: Moved { _this: Owned { state: None } },
        ..o
    }
}

/// The bytes of an optional parameter string.
pub open spec fn parameter_bytes(parameters: Option<&[u8]>) -> Option<Seq<u8>> {
    match parameters {
        Some(bytes) => Some(bytes@),
        None => None,
    }
}

/// Whether a request is a get of this querier.
pub open spec fn is_get_request(
    request: GetRequest,
    state: QuerierState,
    parameters: Option<Seq<u8>>,
    values: (Option<Vec<u8>>, Option<EncodingHint>, Option<Vec<u8>>),
    closure: CClosure,
) -> bool {
    &&& request.session == state.shared
    &&& request.keyexpr@ == state.keyexpr.state->0.keyexpr@
    &&& run_of(request.parameters) == parameters
    &&& request.base == state.base
    &&& request.payload == values.0
    &&& same_hint(request.encoding, values.1)
    &&& request.attachment == values.2
    &&& request.closure == closure
}

/// Whether `issue` was handed this get and answered with `code`.
pub open spec fn get_issued<I: FnOnce(GetRequest) -> ZResult>(
    issue: I,
    state: QuerierState,
    parameters: Option<Seq<u8>>,
    values: (Option<Vec<u8>>, Option<EncodingHint>, Option<Vec<u8>>),
    closure: CClosure,
    code: ZResult,
) -> bool {
    exists|request: GetRequest|
        is_get_request(request, state, parameters, values, closure) && #[trigger] call_ensures(
            issue,
            (request,),
            code,
        )
}

/// Issues a get through a querier. The closure, and the payload and attachment in
/// the options, are consumed on every path; where nothing is issued, the
/// closure's drop is due, which tells the caller that the get is over.
pub fn z_querier_get<I: FnOnce(GetRequest) -> ZResult>(
    querier: Option<&z_loaned_querier_t>,
    parameters: Option<&[u8]>,
    callback: Option<&mut MovedClosure>,
    options: Option<&mut z_querier_get_options_t>,
    issue: I,
) -> (r: (ZResult, Option<DropCall>))
    requires
        live(querier) matches Some(state) ==> state.wf(),
        (live(querier), callback) matches (Some(state), Some(moved)) ==> forall|g: GetRequest|
            is_get_request(
                g,
                state,
                parameter_bytes(parameters),
                match options {
                    Some(o) => get_values(Some(*o)),
                    None => get_values(None),
                },
                moved._this,
            ) ==> #[trigger] call_requires(issue, (g,)),
    ensures
        match callback {
            None => {
                &&& r == (Z_ENULL, None::<DropCall>)
                &&& options matches Some(o) ==> *final(o) == *o
            },
            Some(moved) => {
                &&& final(moved)._this.is_null()
                &&& options matches Some(o) ==> *final(o) == consumed_get_options(*o)
                &&& match live(querier) {
                    Some(state) => {
                        &&& r.1 is None
                        &&& get_issued(
                            issue,
                            state,
                            parameter_bytes(parameters),
                            match options {
                                Some(o) => get_values(Some(*o)),
                                None => get_values(None),
                            },
                            moved._this,
                            r.0,
                        )
                    },
                    None => r == (Z_ENULL, moved._this.drop_call()),
                }
            },
        },
{
    let closure = match callback {
        Some(moved) => adopt(moved),
        None => {
            return (Z_ENULL, None);
        },
    };
    let (payload, encoding, attachment) = match options {
        Some(o) => {
            let payload = take_payload(Some(&mut o.payload));
            let attachment = take_payload(Some(&mut o.attachment));
            let encoding = moved_encoding_hint(&o.encoding);
            (payload, encoding, attachment)
        },
        None => (None, None, None),
    };
    match state_of(querier) {
        None => (Z_ENULL, closure.dropping()),
        Some(state) => {
            let keyexpr = match &state.keyexpr.state {
                Some(ke) => ke.keyexpr.clone(),
                None => String::new(),
            };
            let parameters = match parameters {
                Some(bytes) => Some(crate::bytes::copy_slice(bytes)),
                None => None,
            };
            let request = GetRequest {
                session: state.shared,
                keyexpr,
                parameters,
                base: state.base,
                payload,
                encoding,
                attachment,
                closure,
            };
            let ghost asked = request;
            let code: ZResult = issue(request);
            assert(call_ensures(issue, (asked,), code));
            (code, None)
        },
    }
}

/// What declaring a background listener on a live querier comes to.
pub open spec fn querier_listener_attached<D: FnOnce(MatchingDeclaration) -> u64>(
    declare: D,
    before: QuerierState,
    after: QuerierState,
    closure: CClosure,
    r: BackgroundListener,
) -> bool {
    &&& r.code == Z_OK
    &&& r.due is None
    &&& r.retired == before.matching
    &&& after.matching is Some
    &&& after.matching->0.shared == before.shared
    &&& after == (QuerierState { matching: after.matching, ..before })
    &&& listener_declare_says(
        declare,
        before.shared,
        before.keyexpr.state->0.keyexpr@,
        MatchingScope::Queryables,
        closure,
        after.matching->0.id,
    )
}

/// Declares a listener that lives and dies with a querier. It watches for those
/// who answer; everything else is as on a publisher.
pub fn z_querier_declare_background_matching_listener<D: FnOnce(MatchingDeclaration) -> u64>(
    querier: Option<&mut z_loaned_querier_t>,
    callback: Option<&mut z_moved_closure_matching_status_t>,
    declare: D,
) -> (r: BackgroundListener)
    requires
        querier matches Some(slot) ==> (slot.state matches Some(state) ==> state.wf()),
        (querier, callback) matches (Some(slot), Some(moved)) ==> (
        slot.state matches Some(state) ==> may_declare(
            declare,
            state.shared,
            state.keyexpr.state->0.keyexpr@,
            MatchingScope::Queryables,
            moved._this,
        )),
    ensures
        callback matches Some(moved) ==> final(moved)._this.is_null(),
        match (querier, callback) {
            (Some(slot), Some(moved)) => match slot.state {
                Some(before) => final(slot).state matches Some(after) && querier_listener_attached(
                    declare,
                    before,
                    after,
                    moved._this,
                    r,
                ),
                None => {
                    &&& r.code == Z_ENULL
                    &&& r.due == moved._this.drop_call()
                    &&& r.retired is None
                    &&& *final(slot) == *slot
                },
            },
            (None, Some(moved)) => {
                &&& r.code == Z_ENULL
                &&& r.due == moved._this.drop_call()
                &&& r.retired is None
            },
            (Some(slot), None) => {
                &&& r.code == Z_ENULL
                &&& r.due is None
                &&& r.retired is None
                &&& *final(slot) == *slot
            },
            (None, None) => r.code == Z_ENULL && r.due is None && r.retired is None,
        },
{
    let closure = match callback {
        Some(moved) => adopt(moved),
        None => {
            return BackgroundListener { code: Z_ENULL, due: None, retired: None };
        },
    };
    let slot = match querier {
        Some(slot) => slot,
        None => {
            return BackgroundListener { code: Z_ENULL, due: closure.dropping(), retired: None };
        },
    };
    match &mut slot.state {
        None => BackgroundListener { code: Z_ENULL, due: closure.dropping(), retired: None },
        Some(state) => {
            let keyexpr = match &state.keyexpr.state {
                Some(ke) => ke.keyexpr.clone(),
                None => String::new(),
            };
            let declaration = MatchingDeclaration {
                session: state.shared,
                keyexpr,
                scope: MatchingScope::Queryables,
                closure,
            };
            let ghost asked = declaration;
            let id: u64 = declare(declaration);
            assert(call_ensures(declare, (asked,), id));
            let retired = state.attach_matching(MatchingHold::new(state.shared, id));
            BackgroundListener { code: Z_OK, due: None, retired }
        },
    }
}

/// Whether an owned querier is live.
pub fn z_internal_querier_check(this_: Option<&z_owned_querier_t>) -> (r: bool)
    ensures
        r == (live(this_) is Some),
{
    is_live(this_)
}

/// Makes an owned querier the gravestone.
pub fn z_internal_querier_null(this_: Option<&mut z_owned_querier_t>)
    ensures
        this_ matches Some(slot) ==> final(slot).state is None,
{
    gravestone(this_)
}

/// Undeclares a querier. The matching listener it carried is to be retracted.
pub fn z_undeclare_querier(this_: Option<&mut z_moved_querier_t>) -> (r: (
    ZResult,
    Option<MatchingHold>,
))
    ensures
        r.0 == Z_OK,
        match this_ {
            Some(moved) => {
                &&& final(moved)._this.state is None
                &&& r.1 == (match moved._this.state {
                    Some(state) => state.matching,
                    None => None,
                })
            },
            None => r.1 is None,
        },
{
    match take(this_) {
        Some(state) => (Z_OK, state.matching),
        None => (Z_OK, None),
    }
}

/// Drops a querier, which undeclares it.
pub fn z_querier_drop(this_: Option<&mut z_moved_querier_t>) -> (retired: Option<MatchingHold>)
    ensures
        match this_ {
            Some(moved) => {
                &&& final(moved)._this.state is None
                &&& retired == (match moved._this.state {
                    Some(state) => state.matching,
                    None => None,
                })
            },
            None => retired is None,
        },
{
    z_undeclare_querier(this_).1
}

} // verus!
