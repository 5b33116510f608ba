//! Laws of liveliness and of samples.

use vstd::prelude::*;
use vstd::utf8::encode_utf8;

use crate::bytes::z_loaned_bytes_t;
use crate::closure::CClosure;
use crate::closure::DropCall;
use crate::closure::MovedClosure;
use crate::keyexpr::z_loaned_keyexpr_t;
use crate::liveliness::liveliness_delivery;
use crate::liveliness::liveliness_kind_of;
use crate::liveliness::z_liveliness_declare_subscriber;
use crate::liveliness::z_liveliness_declare_token;
use crate::liveliness::z_liveliness_get;
use crate::liveliness::z_liveliness_get_options_default;
use crate::liveliness::z_liveliness_get_options_t;
use crate::liveliness::z_liveliness_subscriber_options_default;
use crate::liveliness::z_liveliness_subscriber_options_t;
use crate::liveliness::z_liveliness_token_drop;
use crate::liveliness::z_liveliness_token_options_t;
use crate::liveliness::z_liveliness_undeclare_token;
use crate::liveliness::z_moved_liveliness_token_t;
use crate::liveliness::z_owned_liveliness_token_t;
use crate::liveliness::z_owned_subscriber_t;
use crate::liveliness::LivelinessDeclaration;
use crate::liveliness::LivelinessDelivery;
use crate::liveliness::LivelinessGet;
use crate::liveliness::TokenState;
use crate::meta::z_timestamp_t;
use crate::qos::SampleKind;
use crate::result::ZResult;
use crate::sample::escape_sample;
use crate::sample::marshal;
use crate::sample::sample_kind_of;
use crate::sample::with_marshalled;
use crate::sample::z_keyexpr_as_view_string;
use crate::sample::z_loaned_sample_t;
use crate::sample::z_owned_sample_t;
use crate::sample::z_sample_attachment;
use crate::sample::z_sample_clone;
use crate::sample::z_sample_keyexpr;
use crate::sample::z_sample_kind;
use crate::sample::z_sample_kind_t;
use crate::sample::z_sample_loan;
use crate::sample::z_sample_payload;
use crate::sample::z_sample_timestamp;
use crate::sample::SampleMarshal;
use crate::sample::SampleView;
use crate::session::z_loaned_session_t;
use crate::slice::SliceRepr;

verus! {

/// A put and a deletion have different numbers: zero and one.
pub proof fn lemma_the_kinds_have_their_numbers(
    kind: SampleKind,
    number: z_sample_kind_t,
    token: z_sample_kind_t,
)
    requires
        call_ensures(sample_kind_of, (kind,), number),
        call_ensures(liveliness_kind_of, (kind,), token),
    ensures
        number == 0 <==> kind == SampleKind::Put,
        number == 1 <==> kind == SampleKind::Del,
        token == number,
{
}

/// A subscriber asks for the past only where it says so, and a get has the default
/// timeout.
pub proof fn lemma_default_liveliness_options(
    subscriber: &mut z_liveliness_subscriber_options_t,
    get: &mut z_liveliness_get_options_t,
)
    requires
        call_ensures(z_liveliness_subscriber_options_default, (Some(subscriber),), ()),
        call_ensures(z_liveliness_get_options_default, (Some(get),), ()),
    ensures
        !final(subscriber).history,
        final(get).timeout_ms == 0,
{
}

/// A token is declared on its session under its text, where the text may go on the
/// wire, and its handle holds the id that the session answered.
pub proof fn lemma_a_token_is_declared_under_its_text<
    O: Fn(&str) -> bool,
    D: FnOnce(u64, String) -> Option<u64>,
>(
    session: Option<&z_loaned_session_t>,
    token: &mut z_owned_liveliness_token_t,
    key_expr: Option<&z_loaned_keyexpr_t>,
    options: Option<&z_liveliness_token_options_t>,
    outbound: &O,
    declare: D,
    code: ZResult,
)
    requires
        call_ensures(
            z_liveliness_declare_token::<O, D>,
            (session, Some(token), key_expr, options, outbound, declare),
            code,
        ),
    ensures
        final(token).state is Some == (code == 0),
        session is None || session->0.state is None || key_expr is None || key_expr->0.state is None
            ==> code == -5,
        session is Some && session->0.state is Some && key_expr is Some && key_expr->0.state is Some
            ==> {
            let text = key_expr->0.state->0.keyexpr@;
            let shared = session->0.state->0.shared;
            &&& code == 0 || code == -6 || code == -1
            &&& code == -1 ==> exists|t: &str|
                t@ == text && #[trigger] call_ensures(*outbound, (t,), false)
            &&& code != -1 ==> exists|t: &str|
                t@ == text && #[trigger] call_ensures(*outbound, (t,), true)
            &&& code == -6 ==> exists|k: String|
                k@ == text && #[trigger] call_ensures(declare, (shared, k), None)
            &&& code == 0 ==> final(token).state->0.shared == shared && exists|k: String|
                k@ == text && #[trigger] call_ensures(
                    declare,
                    (shared, k),
                    Some(final(token).state->0.id),
                )
        },
{
}

/// Giving up a token retracts the one that was declared, once.
pub proof fn lemma_a_token_is_retracted_once(
    undeclared: &mut z_moved_liveliness_token_t,
    r: (ZResult, Option<TokenState>),
    dropped: &mut z_moved_liveliness_token_t,
    due: Option<TokenState>,
)
    requires
        call_ensures(z_liveliness_undeclare_token, (Some(undeclared),), r),
        call_ensures(z_liveliness_token_drop, (Some(dropped),), due),
    ensures
        r.0 == 0,
        r.1 == old(undeclared)._this.state,
        final(undeclared)._this.state is None,
        due == old(dropped)._this.state,
        final(dropped)._this.state is None,
{
}

/// A subscription is declared on its session under its text, with the closure and
/// with the past only where that was asked for. Where nothing is declared the
/// closure's drop is due.
pub proof fn lemma_a_liveliness_subscription_asks_what_it_was_given<
    O: Fn(&str) -> bool,
    D: FnOnce(LivelinessDeclaration) -> u64,
>(
    session: Option<&z_loaned_session_t>,
    subscriber: &mut z_owned_subscriber_t,
    key_expr: Option<&z_loaned_keyexpr_t>,
    callback: &mut MovedClosure,
    options: Option<&z_liveliness_subscriber_options_t>,
    outbound: &O,
    declare: D,
    r: (ZResult, Option<DropCall>),
)
    requires
        call_ensures(
            z_liveliness_declare_subscriber::<O, D>,
            (session, Some(subscriber), key_expr, Some(callback), options, outbound, declare),
            r,
        ),
    ensures
        final(callback)._this.call is None && final(callback)._this.drop is None,
        final(subscriber).state is Some == (r.0 == 0),
        r.0 == 0 ==> r.1 is None,
        r.0 != 0 ==> r.1 is Some == old(callback)._this.drop is Some,
        r.0 != 0 && r.1 is Some ==> r.1->0.drop == old(callback)._this.drop->0 && r.1->0.context
            == old(callback)._this.context,
        session is None || session->0.state is None || key_expr is None || key_expr->0.state is None
            ==> r.0 == -5,
        session is Some && session->0.state is Some && key_expr is Some && key_expr->0.state is Some
            ==> {
            let text = key_expr->0.state->0.keyexpr@;
            let shared = session->0.state->0.shared;
            &&& r.0 == 0 || r.0 == -1
            &&& exists|t: &str, ok: bool|
                t@ == text && ok == (r.0 == 0) && #[trigger] call_ensures(*outbound, (t,), ok)
            &&& r.0 == 0 ==> final(subscriber).state->0.shared == shared && exists|
                d: LivelinessDeclaration,
            |
                {
                    &&& #[trigger] call_ensures(
                        declare,
                        (d,),
                        final(subscriber).state->0.id,
                    )
                    &&& d.session == shared
                    &&& d.keyexpr@ == text
                    &&& d.history == (options is Some && options->0.history)
                    &&& d.closure == old(callback)._this
                }
        },
{
}

/// A get for the tokens alive asks every face once, in order, under the text and
/// with the closure; a timeout that fits 32 bits is sent exactly, and the longest
/// only for one at least that long. A reply is let through only where its key meets
/// the text. Without a face the get is over at once.
pub proof fn lemma_a_liveliness_get_asks_every_face<O: Fn(&str) -> bool>(
    session: Option<&z_loaned_session_t>,
    key_expr: Option<&z_loaned_keyexpr_t>,
    callback: &mut MovedClosure,
    options: Option<&z_liveliness_get_options_t>,
    faces: &Vec<u64>,
    outbound: &O,
    r: LivelinessGet,
)
    requires
        call_ensures(
            z_liveliness_get::<O>,
            (session, key_expr, Some(callback), options, faces, outbound),
            r,
        ),
    ensures
        final(callback)._this.call is None && final(callback)._this.drop is None,
        session is None || session->0.state is None || key_expr is None || key_expr->0.state is None
            ==> r.code == -5,
        session is Some && session->0.state is Some && key_expr is Some && key_expr->0.state is Some
            ==> (r.code == 0 || r.code == -1) && exists|t: &str, ok: bool|
            t@ == key_expr->0.state->0.keyexpr@ && ok == (r.code == 0) && #[trigger] call_ensures(
                *outbound,
                (t,),
                ok,
            ),
        r.code == 0 ==> r.requests@.len() == faces@.len(),
        r.code != 0 ==> r.requests@.len() == 0,
        r.due is Some ==> r.requests@.len() == 0,
        r.requests@.len() == 0 ==> r.due is Some == old(callback)._this.drop is Some,
        r.due is Some ==> r.due->0.drop == old(callback)._this.drop->0 && r.due->0.context == old(callback)._this.context,
        forall|i: int|
            0 <= i < r.requests@.len() ==> {
                let request = #[trigger] r.requests@[i];
                let text = key_expr->0.state->0.keyexpr@;
                &&& request.face == faces@[i]
                &&& request.keyexpr@ == text
                &&& request.gate.query_keyexpr@ == text
                &&& !request.gate.anyke
                &&& request.closure == old(callback)._this
                &&& options is None ==> request.timeout_ms == 0
                &&& options is Some && options->0.timeout_ms <= 0xffff_ffff
                    ==> request.timeout_ms == options->0.timeout_ms
                &&& options is Some && options->0.timeout_ms > 0xffff_ffff
                    ==> request.timeout_ms == 0xffff_ffffu32
            },
{
}

/// A token that appears is told of as a put of no bytes under its text, and one
/// that goes away as a deletion.
pub proof fn lemma_a_token_is_told_of_by_its_kind(
    closure: CClosure,
    keyexpr: &str,
    kind: SampleKind,
    due: Option<LivelinessDelivery>,
)
    requires
        call_ensures(liveliness_delivery, (&closure, keyexpr, kind), due),
    ensures
        due is Some == closure.call is Some,
        due matches Some(d) ==> {
            &&& Some(d.invocation.call) == closure.call
            &&& d.invocation.context == closure.context
            &&& d.sample.bound
            &&& d.sample.kind == 0 <==> kind == SampleKind::Put
            &&& d.sample.kind == 1 <==> kind == SampleKind::Del
            &&& d.sample.keyexpr.state is Some
            &&& d.sample.keyexpr.state->0.keyexpr@ == keyexpr@
            &&& d.sample.keyexpr.state->0.mapping is None
            &&& d.sample.payload.state is Some
            &&& d.sample.payload.state->0.payload@.len() == 0
            &&& d.sample.attachment is None
            &&& d.sample.timestamp is None
        },
{
}

/// A delivered sample is handed on with the key, the payload, the kind, the
/// attachment and the timestamp that it was delivered with.
pub proof fn lemma_a_sample_is_handed_on_whole(view: SampleView, out: SampleMarshal)
    requires
        call_ensures(marshal, (&view,), out),
    ensures
        out.bound,
        out.keyexpr.state is Some,
        out.keyexpr.state->0.keyexpr@ == view.keyexpr@,
        out.keyexpr.state->0.mapping is None,
        out.payload.state is Some,
        out.payload.state->0.payload@ == view.payload@,
        out.kind == 0 <==> view.kind == SampleKind::Put,
        out.kind == 1 <==> view.kind == SampleKind::Del,
        out.attachment is Some == view.attachment is Some,
        view.attachment is Some ==> out.attachment->0.state is Some
            && out.attachment->0.state->0.payload@ == view.attachment->0@,
        out.timestamp == view.timestamp,
{
}

/// A body that runs with a sample gets what the sample was delivered with.
pub proof fn lemma_a_body_runs_with_the_sample<R, F: FnOnce(&z_loaned_sample_t) -> R>(
    view: SampleView,
    body: F,
    r: R,
)
    requires
        call_ensures(with_marshalled::<R, F>, (&view, body), r),
    ensures
        exists|m: SampleMarshal|
            {
                &&& #[trigger] call_ensures(body, (&m,), r)
                &&& m.bound
                &&& m.keyexpr.state is Some
                &&& m.keyexpr.state->0.keyexpr@ == view.keyexpr@
                &&& m.payload.state is Some
                &&& m.payload.state->0.payload@ == view.payload@
                &&& m.kind == 0 <==> view.kind == SampleKind::Put
                &&& m.attachment is Some == view.attachment is Some
                &&& view.attachment is Some ==> m.attachment->0.state is Some
                    && m.attachment->0.state->0.payload@ == view.attachment->0@
                &&& m.timestamp == view.timestamp
            },
{
}

/// What is read of a sample is what it holds: the parts that are borrowed once it is
/// bound, the others at any time. No attachment and an empty one are told apart.
pub proof fn lemma_a_sample_is_read_as_it_is(
    m: z_loaned_sample_t,
    keyexpr: Option<&z_loaned_keyexpr_t>,
    payload: Option<&z_loaned_bytes_t>,
    kind: z_sample_kind_t,
    attachment: Option<&z_loaned_bytes_t>,
    timestamp: Option<&z_timestamp_t>,
)
    requires
        call_ensures(z_sample_keyexpr, (Some(&m),), keyexpr),
        call_ensures(z_sample_payload, (Some(&m),), payload),
        call_ensures(z_sample_kind, (Some(&m),), kind),
        call_ensures(z_sample_attachment, (Some(&m),), attachment),
        call_ensures(z_sample_timestamp, (Some(&m),), timestamp),
    ensures
        keyexpr is Some == m.bound,
        keyexpr is Some ==> *keyexpr->0 == m.keyexpr,
        payload is Some == m.bound,
        payload is Some ==> *payload->0 == m.payload,
        kind == m.kind,
        attachment is Some == (m.bound && m.attachment is Some),
        attachment is Some ==> *attachment->0 == m.attachment->0,
        timestamp is Some == m.timestamp is Some,
        timestamp is Some ==> *timestamp->0 == m.timestamp->0,
{
}

/// A copy of a sample holds the same key, payload, attachment, kind and timestamp,
/// and can be borrowed from.
pub proof fn lemma_a_copied_sample_is_the_same(
    m: z_loaned_sample_t,
    escaped: Option<SampleMarshal>,
    dst: &mut z_owned_sample_t,
    this_: Option<&z_owned_sample_t>,
    loaned: Option<&z_loaned_sample_t>,
)
    requires
        m.keyexpr.state is Some,
        call_ensures(escape_sample, (Some(&m),), escaped),
        call_ensures(z_sample_clone, (Some(dst), Some(&m)), ()),
        call_ensures(z_sample_loan, (this_,), loaned),
    ensures
        escaped is Some,
        escaped->0.bound,
        escaped->0.keyexpr.state is Some,
        escaped->0.keyexpr.state->0.keyexpr@ == m.keyexpr.state->0.keyexpr@,
        escaped->0.keyexpr.state->0.mapping is None,
        escaped->0.payload.state is Some == m.payload.state is Some,
        m.payload.state is Some ==> escaped->0.payload.state->0.payload@
            == m.payload.state->0.payload@,
        escaped->0.attachment is Some == m.attachment is Some,
        m.attachment is Some ==> escaped->0.attachment->0.state is Some
            == m.attachment->0.state is Some,
        m.attachment is Some && m.attachment->0.state is Some
            ==> escaped->0.attachment->0.state->0.payload@ == m.attachment->0.state->0.payload@,
        escaped->0.kind == m.kind,
        escaped->0.timestamp == m.timestamp,
        final(dst).state is Some,
        final(dst).state->0.bound,
        final(dst).state->0.keyexpr.state is Some,
        final(dst).state->0.keyexpr.state->0.keyexpr@ == m.keyexpr.state->0.keyexpr@,
        final(dst).state->0.payload.state is Some == m.payload.state is Some,
        m.payload.state is Some ==> final(dst).state->0.payload.state->0.payload@
            == m.payload.state->0.payload@,
        final(dst).state->0.attachment is Some == m.attachment is Some,
        final(dst).state->0.kind == m.kind,
        final(dst).state->0.timestamp == m.timestamp,
        loaned is Some == (this_ is Some && this_->0.state is Some),
        loaned is Some ==> *loaned->0 == this_->0.state->0,
{
}

/// A key expression is viewed as the bytes of its text.
pub proof fn lemma_a_keyexpr_is_viewed_as_its_text<'a>(
    this_: Option<&'a z_loaned_keyexpr_t>,
    out: &mut SliceRepr<'a>,
)
    requires
        call_ensures(z_keyexpr_as_view_string, (this_, Some(out)), ()),
    ensures
        *final(out) is Viewed == (this_ is Some && this_->0.state is Some),
        *final(out) is Viewed ==> final(out)->Viewed_0@ == encode_utf8(this_->0.state->0.keyexpr@),
        !(*final(out) is Viewed) ==> *final(out) is Null,
{
}

} // verus!
