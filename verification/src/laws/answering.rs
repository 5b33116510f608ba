//! Laws of queryables, queries and the replies to them.

use vstd::prelude::*;
use vstd::utf8::encode_utf8;
use vstd::utf8::encode_utf8_decode_utf8;
use vstd::utf8::encode_utf8_valid_utf8;
use vstd::utf8::valid_utf8;

use crate::bytes::z_loaned_bytes_t;
use crate::bytes::z_moved_bytes_t;
use crate::closure::CClosure;
use crate::closure::DropCall;
use crate::closure::MovedClosure;
use crate::keyexpr::z_loaned_keyexpr_t;
use crate::laws::texts::lemma_a_text_can_be_cut;
use crate::laws::texts::lemma_cuts_add_up;
use crate::meta::z_entity_global_id_t;
use crate::meta::z_source_info_t;
use crate::meta::EncodingHint;
use crate::qos::Locality;
use crate::query::begin_dispatch;
use crate::query::end_dispatch;
use crate::query::escape_query;
use crate::query::flush_one;
use crate::query::parameters_has_anyke;
use crate::query::queryable_declare_params;
use crate::query::reply_keyexpr_is_covered;
use crate::query::z_declare_background_queryable;
use crate::query::z_declare_queryable;
use crate::query::z_loaned_query_t;
use crate::query::z_loaned_queryable_t;
use crate::query::z_moved_query_t;
use crate::query::z_moved_queryable_t;
use crate::query::z_owned_query_t;
use crate::query::z_owned_queryable_t;
use crate::query::z_query_accepts_replies;
use crate::query::z_query_attachment;
use crate::query::z_query_clone;
use crate::query::z_query_drop;
use crate::query::z_query_encoding;
use crate::query::z_query_keyexpr;
use crate::query::z_query_parameters;
use crate::query::z_query_payload;
use crate::query::z_query_reply;
use crate::query::z_query_reply_del;
use crate::query::z_query_reply_del_options_default;
use crate::query::z_query_reply_del_options_t;
use crate::query::z_query_reply_err;
use crate::query::z_query_reply_err_options_default;
use crate::query::z_query_reply_err_options_t;
use crate::query::z_query_reply_options_default;
use crate::query::z_query_reply_options_t;
use crate::query::z_query_source_info;
use crate::query::z_query_take_from_loaned;
use crate::query::z_queryable_drop;
use crate::query::z_queryable_id;
use crate::query::z_queryable_keyexpr;
use crate::query::z_queryable_options_default;
use crate::query::z_queryable_options_t;
use crate::query::z_undeclare_queryable;
use crate::query::DeferredReply;
use crate::query::DispatchEnd;
use crate::query::FinalRelease;
use crate::query::PendingReply;
use crate::query::QueryDispatch;
use crate::query::QueryMarshal;
use crate::query::QueryView;
use crate::query::QueryableDeclaration;
use crate::query::QueryableRetraction;
use crate::query::ReplyCall;
use crate::query::ReplyKeyExpr;
use crate::query::ReplyOutcome;
use crate::result::ZResult;
use crate::session::z_loaned_session_t;
use crate::slice::SliceRepr;
use crate::text::is_split;
use crate::text::joined;
use crate::text::lemma_split_is_unique;
use crate::text::texts;

verus! {

/// A value goes on the wire under its key with its payload and all that rides
/// beside it.
pub proof fn lemma_a_value_goes_out_whole(reply: PendingReply, call: ReplyCall)
    requires
        call_ensures(flush_one, (reply,), call),
        reply is Put,
    ensures
        call is Keyed,
        call->Keyed_keyexpr@ == reply->Put_keyexpr@,
        call->Keyed_payload@ == reply->Put_payload@,
        call->Keyed_meta.encoding == reply->Put_encoding,
        call->Keyed_meta.attachment == reply->Put_attachment,
        call->Keyed_meta.timestamp == reply->Put_timestamp,
        call->Keyed_meta.source_info == reply->Put_source_info,
{
}

/// A deletion goes on the wire under its key, with no encoding.
pub proof fn lemma_a_deletion_goes_out_whole(reply: PendingReply, call: ReplyCall)
    requires
        call_ensures(flush_one, (reply,), call),
        reply is Del,
    ensures
        call is KeyedDel,
        call->KeyedDel_keyexpr@ == reply->Del_keyexpr@,
        call->KeyedDel_meta.encoding is None,
        call->KeyedDel_meta.attachment == reply->Del_attachment,
        call->KeyedDel_meta.timestamp == reply->Del_timestamp,
        call->KeyedDel_meta.source_info == reply->Del_source_info,
{
}

/// An error goes on the wire with the number of its content type: whatever number
/// and schema flag were packed, the number comes out, and packing it again with the
/// flag gives what was packed. Its payload and its schema go with it.
pub proof fn lemma_an_error_goes_out_with_its_content_type(
    reply: PendingReply,
    call: ReplyCall,
    id: u32,
    flag: u32,
)
    requires
        call_ensures(flush_one, (reply,), call),
        reply is Fault,
        flag <= 1,
    ensures
        call is Fault,
        call->Fault_payload@ == reply->Fault_payload@,
        call->Fault_encoding_id is Some == reply->Fault_encoding is Some,
        reply->Fault_encoding is Some && reply->Fault_encoding->0.packed_id == 2 * id + flag
            ==> call->Fault_encoding_id == Some(id),
        reply->Fault_encoding is Some ==> 2 * call->Fault_encoding_id->0
            + reply->Fault_encoding->0.packed_id % 2 == reply->Fault_encoding->0.packed_id,
        reply->Fault_encoding is Some ==> call->Fault_schema == reply->Fault_encoding->0.schema,
        reply->Fault_encoding is None ==> call->Fault_schema is None,
{
}

/// A selector of one field asks for replies under any key exactly where the field is
/// `_anyke`, alone or with a value.
pub proof fn lemma_one_field_asks_for_any_key(parameters: &[u8], field: Seq<char>, r: bool)
    requires
        call_ensures(parameters_has_anyke, (parameters,), r),
        parameters@ == encode_utf8(field),
        !field.contains('&'),
    ensures
        r == {
            ||| field == seq!['_', 'a', 'n', 'y', 'k', 'e']
            ||| field.len() >= 7 && field.take(7) == seq!['_', 'a', 'n', 'y', 'k', 'e', '=']
        },
{
    encode_utf8_valid_utf8(field);
    encode_utf8_decode_utf8(field);
    reveal_strlit("_anyke");
    reveal_strlit("_anyke=");
    assert("_anyke"@ =~= seq!['_', 'a', 'n', 'y', 'k', 'e']);
    assert("_anyke="@ =~= seq!['_', 'a', 'n', 'y', 'k', 'e', '=']);
    let whole = seq![field];
    assert(joined(whole, '&') == field);
    assert(is_split(field, '&', whole));
    assert(whole[0] == field);
    if field.len() >= 7 && field.take(7) == "_anyke="@ {
        assert("_anyke="@.is_prefix_of(field)) by {
            assert(field.subrange(0, 7) =~= field.take(7));
        }
    }
    if r {
        let (fields, i) = choose|fields: Seq<Seq<char>>, i: int|
            #![trigger is_split(field, '&', fields), fields[i]]
            is_split(field, '&', fields) && 0 <= i < fields.len() && crate::query::names_anyke(
                fields[i],
            );
        lemma_split_is_unique(field, '&', whole, fields);
        if "_anyke="@.is_prefix_of(field) {
            assert(field.take(7) =~= "_anyke="@);
        }
    }
}

/// A selector of two parts asks for replies under any key exactly where one of its
/// parts does. One that is no text does not.
pub proof fn lemma_any_part_asks_for_any_key(
    parameters: &[u8],
    r: bool,
    a: Seq<char>,
    left: &[u8],
    in_left: bool,
    b: Seq<char>,
    right: &[u8],
    in_right: bool,
)
    requires
        call_ensures(parameters_has_anyke, (parameters,), r),
        call_ensures(parameters_has_anyke, (left,), in_left),
        call_ensures(parameters_has_anyke, (right,), in_right),
        left@ == encode_utf8(a),
        right@ == encode_utf8(b),
    ensures
        parameters@ == encode_utf8(a + seq!['&'] + b) ==> r == (in_left || in_right),
        !valid_utf8(parameters@) ==> !r,
{
    let both = a + seq!['&'] + b;
    encode_utf8_valid_utf8(a);
    encode_utf8_decode_utf8(a);
    encode_utf8_valid_utf8(b);
    encode_utf8_decode_utf8(b);
    encode_utf8_valid_utf8(both);
    encode_utf8_decode_utf8(both);
    if parameters@ == encode_utf8(both) {
        let x = lemma_a_text_can_be_cut(a, '&');
        let y = lemma_a_text_can_be_cut(b, '&');
        lemma_cuts_add_up(a, b, '&', x, y);
        let z = x + y;
        if in_left {
            let (fields, i) = choose|fields: Seq<Seq<char>>, i: int|
                #![trigger is_split(a, '&', fields), fields[i]]
                is_split(a, '&', fields) && 0 <= i < fields.len() && crate::query::names_anyke(
                    fields[i],
                );
            lemma_split_is_unique(a, '&', x, fields);
            assert(z[i] == fields[i]);
        }
        if in_right {
            let (fields, i) = choose|fields: Seq<Seq<char>>, i: int|
                #![trigger is_split(b, '&', fields), fields[i]]
                is_split(b, '&', fields) && 0 <= i < fields.len() && crate::query::names_anyke(
                    fields[i],
                );
            lemma_split_is_unique(b, '&', y, fields);
            assert(z[x.len() + i] == fields[i]);
        }
        if r {
            let (fields, i) = choose|fields: Seq<Seq<char>>, i: int|
                #![trigger is_split(both, '&', fields), fields[i]]
                is_split(both, '&', fields) && 0 <= i < fields.len() && crate::query::names_anyke(
                    fields[i],
                );
            lemma_split_is_unique(both, '&', z, fields);
            if i < x.len() {
                assert(x[i] == fields[i]);
            } else {
                assert(y[i - x.len()] == fields[i]);
            }
        }
    }
}

/// Any key is covered where the query asked for any, and otherwise the matching
/// function answers over the chunks of the two keys between their slashes.
pub proof fn lemma_a_key_is_covered_as_the_query_asked<M: Fn(&Vec<String>, &Vec<String>) -> bool>(
    query_keyexpr: &str,
    reply: &str,
    anyke: bool,
    intersects: &M,
    r: bool,
)
    requires
        call_ensures(reply_keyexpr_is_covered::<M>, (query_keyexpr, reply, anyke, intersects), r),
    ensures
        anyke ==> r,
        !anyke ==> exists|a: &Vec<String>, b: &Vec<String>|
            {
                &&& #[trigger] call_ensures(*intersects, (a, b), r)
                &&& joined(texts(a@), '/') == query_keyexpr@
                &&& joined(texts(b@), '/') == reply@
                &&& a@.len() > 0 && b@.len() > 0
                &&& forall|i: int| 0 <= i < a@.len() ==> !(#[trigger] a@[i]@).contains('/')
                &&& forall|i: int| 0 <= i < b@.len() ==> !(#[trigger] b@[i]@).contains('/')
            },
{
    if !anyke {
        let (a, b) = choose|a: &Vec<String>, b: &Vec<String>|
            is_split(query_keyexpr@, '/', texts(a@)) && is_split(reply@, '/', texts(b@))
                && #[trigger] call_ensures(*intersects, (a, b), r);
        assert forall|i: int| 0 <= i < a@.len() implies !(#[trigger] a@[i]@).contains('/') by {
            assert(texts(a@)[i] == a@[i]@);
        }
        assert forall|i: int| 0 <= i < b@.len() implies !(#[trigger] b@[i]@).contains('/') by {
            assert(texts(b@)[i] == b@[i]@);
        }
    }
}

/// A query reaches its callback with what was asked: the key, the parameters, the
/// payload, the attachment, the encoding, the source and the id. It can escape over
/// its session, and no reply is recorded yet.
pub proof fn lemma_a_query_is_handed_on_whole(
    closure: CClosure,
    view: QueryView,
    session: u64,
    dispatch: Option<QueryDispatch>,
)
    requires
        call_ensures(begin_dispatch, (&closure, &view, session), dispatch),
    ensures
        dispatch is Some == closure.call is Some,
        dispatch matches Some(d) ==> {
            let m = d.marshal;
            &&& Some(d.invocation.call) == closure.call
            &&& d.invocation.context == closure.context
            &&& m.bound
            &&& m.session == Some(session)
            &&& m.escapes == 0
            &&& m.deferred is None
            &&& m.replies@.len() == 0
            &&& m.keyexpr.state is Some
            &&& m.keyexpr.state->0.keyexpr@ == view.keyexpr@
            &&& m.keyexpr.state->0.mapping is None
            &&& view.parameters is Some ==> m.parameters@ == view.parameters->0@
            &&& view.parameters is None ==> m.parameters@.len() == 0
            &&& m.payload is Some == view.payload is Some
            &&& view.payload is Some ==> m.payload->0.state is Some
                && m.payload->0.state->0.payload@ == view.payload->0@
            &&& m.attachment is Some == view.attachment is Some
            &&& view.attachment is Some ==> m.attachment->0.state is Some
                && m.attachment->0.state->0.payload@ == view.attachment->0@
            &&& view.encoding is Some ==> m.encoding.packed_id == view.encoding->0.packed_id
                && m.encoding.schema is Some == view.encoding->0.schema is Some
            &&& view.encoding is Some && view.encoding->0.schema is Some
                ==> m.encoding.schema->0@ == view.encoding->0.schema->0@
            &&& view.encoding is None ==> m.encoding.packed_id == 0 && m.encoding.schema is None
            &&& m.source_info == view.source_info
            &&& m.rid == view.rid
        },
{
}

/// A query's callback is told to take replies under any key exactly where its
/// parameters ask for it.
pub proof fn lemma_a_query_accepts_what_its_parameters_ask(
    closure: CClosure,
    view: QueryView,
    session: u64,
    dispatch: Option<QueryDispatch>,
    parameters: &[u8],
    any: bool,
    accepts: u32,
)
    requires
        call_ensures(begin_dispatch, (&closure, &view, session), dispatch),
        closure.call is Some,
        view.parameters is Some ==> parameters@ == view.parameters->0@,
        view.parameters is None ==> parameters@.len() == 0,
        call_ensures(parameters_has_anyke, (parameters,), any),
        call_ensures(z_query_accepts_replies, (Some(&dispatch->0.marshal),), accepts),
    ensures
        accepts == 0 <==> any,
        accepts == 1 <==> !any,
{
    if view.parameters is None {
        assert(parameters@ =~= Seq::<u8>::empty());
    }
}

/// When a callback has returned, every reply it recorded goes out once, in order and
/// as it would by itself, and there are as many holds as escapes.
pub proof fn lemma_every_recorded_reply_goes_out_in_order(
    marshal: QueryMarshal,
    end: DispatchEnd,
    i: int,
    call: ReplyCall,
)
    requires
        call_ensures(end_dispatch, (marshal,), end),
        0 <= i < marshal.replies@.len() ==> call_ensures(
            flush_one,
            (marshal.replies@[i],),
            call,
        ),
    ensures
        end.holds == marshal.escapes,
        end.rid == marshal.rid,
        end.calls@.len() == marshal.replies@.len(),
        0 <= i < marshal.replies@.len() ==> end.calls@[i] == call,
{
}

/// A reply to a query that has not escaped is kept behind those before it, and one
/// to a query that has is sent at once through the query's responder, as it would be
/// sent by itself.
pub proof fn lemma_a_reply_is_kept_or_sent(
    query: &mut QueryMarshal,
    reply: PendingReply,
    due: Option<DeferredReply>,
    call: ReplyCall,
)
    requires
        call_ensures(QueryMarshal::push_reply, (query, reply), due),
        call_ensures(flush_one, (reply,), call),
    ensures
        old(query).deferred is None ==> {
            &&& due is None
            &&& final(query).replies@ == old(query).replies@.push(reply)
            &&& final(query).keyexpr == old(query).keyexpr
            &&& final(query).rid == old(query).rid
            &&& final(query).escapes == old(query).escapes
        },
        old(query).deferred is Some ==> {
            &&& *final(query) == *old(query)
            &&& due is Some
            &&& due->0.responder == old(query).deferred->0
            &&& due->0.query_keyexpr@ == old(query).keyexpr.state->0.keyexpr@
            &&& due->0.call == call
        },
{
}

/// A query that is answered with a value records it under the key that was given,
/// with the payload and all that the options bring, where the key is covered.
/// Otherwise it is left as it was and the answer is refused. What was given is
/// consumed either way.
pub proof fn lemma_a_value_answers_with_what_it_was_given<
    M: Fn(&Vec<String>, &Vec<String>) -> bool,
>(
    query: &mut z_loaned_query_t,
    key_expr: Option<&z_loaned_keyexpr_t>,
    payload: &mut z_moved_bytes_t,
    options: Option<&mut z_query_reply_options_t>,
    intersects: &M,
    outcome: ReplyOutcome,
)
    requires
        call_ensures(
            z_query_reply::<M>,
            (Some(query), key_expr, Some(payload), options, intersects),
            outcome,
        ),
        old(query).deferred is None,
    ensures
        final(payload)._this.state is None,
        options matches Some(o) ==> final(o).encoding._this.state is None
            && final(o).attachment._this.state is None,
        outcome.due is None,
        outcome.code != 0 ==> *final(query) == *old(query),
        key_expr is None || key_expr->0.state is None || old(payload)._this.state is None
            ==> outcome.code == -5,
        key_expr is Some && key_expr->0.state is Some && old(payload)._this.state is Some ==> {
            &&& outcome.code == 0 || outcome.code == -1
            &&& old(query).anyke ==> outcome.code == 0
            &&& !old(query).anyke ==> exists|a: &Vec<String>, b: &Vec<String>, ok: bool|
                {
                    &&& #[trigger] call_ensures(*intersects, (a, b), ok)
                    &&& ok == (outcome.code == 0)
                    &&& joined(texts(a@), '/') == old(query).keyexpr.state->0.keyexpr@
                    &&& joined(texts(b@), '/') == key_expr->0.state->0.keyexpr@
                }
        },
        outcome.code == 0 ==> {
            let n = old(query).replies@.len() as int;
            let kept = final(query).replies@;
            &&& kept.len() == n + 1
            &&& kept.take(n) == old(query).replies@
            &&& kept[n] is Put
            &&& kept[n]->Put_keyexpr@ == key_expr->0.state->0.keyexpr@
            &&& kept[n]->Put_payload@ == old(payload)._this.state->0.payload@
            &&& options is None ==> kept[n]->Put_encoding is None && kept[n]->Put_attachment is None
                && kept[n]->Put_timestamp is None && kept[n]->Put_source_info is None
            &&& options matches Some(o) ==> {
                &&& kept[n]->Put_encoding == o.encoding._this.state
                &&& kept[n]->Put_attachment is Some == o.attachment._this.state is Some
                &&& kept[n]->Put_attachment is Some ==> kept[n]->Put_attachment->0@
                    == o.attachment._this.state->0.payload@
                &&& kept[n]->Put_timestamp == o.timestamp
                &&& kept[n]->Put_source_info == o.source_info
            }
        },
{
    if outcome.code == 0 {
        let n = old(query).replies@.len() as int;
        assert(final(query).replies@.take(n) =~= old(query).replies@);
    }
    if key_expr is Some && key_expr->0.state is Some && old(payload)._this.state is Some && !old(query).anyke {
        let ok = outcome.code == 0;
        let (a, b) = choose|a: &Vec<String>, b: &Vec<String>|
            is_split(old(query).keyexpr.state->0.keyexpr@, '/', texts(a@)) && is_split(
                key_expr->0.state->0.keyexpr@,
                '/',
                texts(b@),
            ) && #[trigger] call_ensures(*intersects, (a, b), ok);
        assert(call_ensures(*intersects, (a, b), ok));
    }
}

/// An escaped query that is answered with a value sends it at once, through its
/// responder, under the key that was given and with all that came with it.
pub proof fn lemma_an_escaped_query_sends_its_value<M: Fn(&Vec<String>, &Vec<String>) -> bool>(
    query: &mut z_loaned_query_t,
    key_expr: Option<&z_loaned_keyexpr_t>,
    payload: &mut z_moved_bytes_t,
    options: Option<&mut z_query_reply_options_t>,
    intersects: &M,
    outcome: ReplyOutcome,
)
    requires
        call_ensures(
            z_query_reply::<M>,
            (Some(query), key_expr, Some(payload), options, intersects),
            outcome,
        ),
        old(query).deferred is Some,
    ensures
        *final(query) == *old(query),
        outcome.due is Some == (outcome.code == 0),
        outcome.code == 0 ==> {
            let sent = outcome.due->0;
            &&& sent.responder == old(query).deferred->0
            &&& sent.query_keyexpr@ == old(query).keyexpr.state->0.keyexpr@
            &&& sent.call is Keyed
            &&& sent.call->Keyed_keyexpr@ == key_expr->0.state->0.keyexpr@
            &&& sent.call->Keyed_payload@ == old(payload)._this.state->0.payload@
            &&& options is None ==> sent.call->Keyed_meta.encoding is None
                && sent.call->Keyed_meta.attachment is None
                && sent.call->Keyed_meta.timestamp is None
                && sent.call->Keyed_meta.source_info is None
            &&& options matches Some(o) ==> {
                &&& sent.call->Keyed_meta.encoding == o.encoding._this.state
                &&& sent.call->Keyed_meta.attachment is Some == o.attachment._this.state is Some
                &&& sent.call->Keyed_meta.attachment is Some
                    ==> sent.call->Keyed_meta.attachment->0@ == o.attachment._this.state->0.payload@
                &&& sent.call->Keyed_meta.timestamp == o.timestamp
                &&& sent.call->Keyed_meta.source_info == o.source_info
            }
        },
{
}

/// A deletion answers by the same rules as a value, and has no payload and no
/// encoding.
pub proof fn lemma_a_deletion_answers_with_what_it_was_given<
    M: Fn(&Vec<String>, &Vec<String>) -> bool,
>(
    query: &mut z_loaned_query_t,
    key_expr: Option<&z_loaned_keyexpr_t>,
    options: Option<&mut z_query_reply_del_options_t>,
    intersects: &M,
    outcome: ReplyOutcome,
)
    requires
        call_ensures(z_query_reply_del::<M>, (Some(query), key_expr, options, intersects), outcome),
    ensures
        options matches Some(o) ==> final(o).attachment._this.state is None,
        outcome.code != 0 ==> *final(query) == *old(query) && outcome.due is None,
        key_expr is None || key_expr->0.state is None ==> outcome.code == -5,
        key_expr is Some && key_expr->0.state is Some ==> {
            &&& outcome.code == 0 || outcome.code == -1
            &&& old(query).anyke ==> outcome.code == 0
            &&& !old(query).anyke ==> exists|a: &Vec<String>, b: &Vec<String>, ok: bool|
                {
                    &&& #[trigger] call_ensures(*intersects, (a, b), ok)
                    &&& ok == (outcome.code == 0)
                    &&& joined(texts(a@), '/') == old(query).keyexpr.state->0.keyexpr@
                    &&& joined(texts(b@), '/') == key_expr->0.state->0.keyexpr@
                }
        },
        outcome.code == 0 && old(query).deferred is None ==> {
            let n = old(query).replies@.len() as int;
            let kept = final(query).replies@;
            &&& outcome.due is None
            &&& kept.len() == n + 1
            &&& kept.take(n) == old(query).replies@
            &&& kept[n] is Del
            &&& kept[n]->Del_keyexpr@ == key_expr->0.state->0.keyexpr@
            &&& options is None ==> kept[n]->Del_attachment is None && kept[n]->Del_timestamp is None
                && kept[n]->Del_source_info is None
            &&& options matches Some(o) ==> {
                &&& kept[n]->Del_attachment is Some == o.attachment._this.state is Some
                &&& kept[n]->Del_attachment is Some ==> kept[n]->Del_attachment->0@
                    == o.attachment._this.state->0.payload@
                &&& kept[n]->Del_timestamp == o.timestamp
                &&& kept[n]->Del_source_info == o.source_info
            }
        },
        outcome.code == 0 && old(query).deferred is Some ==> {
            let sent = outcome.due->0;
            &&& *final(query) == *old(query)
            &&& outcome.due is Some
            &&& sent.responder == old(query).deferred->0
            &&& sent.call is KeyedDel
            &&& sent.call->KeyedDel_keyexpr@ == key_expr->0.state->0.keyexpr@
            &&& sent.call->KeyedDel_meta.encoding is None
            &&& sent.query_keyexpr@ == old(query).keyexpr.state->0.keyexpr@
            &&& options is None ==> sent.call->KeyedDel_meta.attachment is None
                && sent.call->KeyedDel_meta.timestamp is None
                && sent.call->KeyedDel_meta.source_info is None
            &&& options matches Some(o) ==> {
                &&& sent.call->KeyedDel_meta.attachment is Some == o.attachment._this.state is Some
                &&& sent.call->KeyedDel_meta.attachment is Some
                    ==> sent.call->KeyedDel_meta.attachment->0@
                    == o.attachment._this.state->0.payload@
                &&& sent.call->KeyedDel_meta.timestamp == o.timestamp
                &&& sent.call->KeyedDel_meta.source_info == o.source_info
            }
        },
{
    if outcome.code == 0 && old(query).deferred is None {
        let n = old(query).replies@.len() as int;
        assert(final(query).replies@.take(n) =~= old(query).replies@);
    }
    if key_expr is Some && key_expr->0.state is Some && !old(query).anyke {
        let ok = outcome.code == 0;
        let (a, b) = choose|a: &Vec<String>, b: &Vec<String>|
            is_split(old(query).keyexpr.state->0.keyexpr@, '/', texts(a@)) && is_split(
                key_expr->0.state->0.keyexpr@,
                '/',
                texts(b@),
            ) && #[trigger] call_ensures(*intersects, (a, b), ok);
        assert(call_ensures(*intersects, (a, b), ok));
    }
}

/// An error answers whatever the key: its payload and its encoding are recorded, or
/// sent at once by an escaped query with the number of its content type.
pub proof fn lemma_an_error_answers_with_what_it_was_given(
    query: &mut z_loaned_query_t,
    payload: &mut z_moved_bytes_t,
    options: Option<&mut z_query_reply_err_options_t>,
    outcome: ReplyOutcome,
)
    requires
        call_ensures(z_query_reply_err, (Some(query), Some(payload), options), outcome),
    ensures
        final(payload)._this.state is None,
        options matches Some(o) ==> final(o).encoding._this.state is None,
        outcome.code == (if old(payload)._this.state is Some {
            0i8
        } else {
            -5i8
        }),
        outcome.code != 0 ==> *final(query) == *old(query) && outcome.due is None,
        outcome.code == 0 && old(query).deferred is None ==> {
            let n = old(query).replies@.len() as int;
            let kept = final(query).replies@;
            &&& outcome.due is None
            &&& kept.len() == n + 1
            &&& kept.take(n) == old(query).replies@
            &&& kept[n] is Fault
            &&& kept[n]->Fault_payload@ == old(payload)._this.state->0.payload@
            &&& options is None ==> kept[n]->Fault_encoding is None
            &&& options matches Some(o) ==> kept[n]->Fault_encoding == o.encoding._this.state
        },
        outcome.code == 0 && old(query).deferred is Some ==> {
            let sent = outcome.due->0;
            &&& *final(query) == *old(query)
            &&& outcome.due is Some
            &&& sent.responder == old(query).deferred->0
            &&& sent.call is Fault
            &&& sent.call->Fault_payload@ == old(payload)._this.state->0.payload@
            &&& options is None ==> sent.call->Fault_encoding_id is None
            &&& options matches Some(o) ==> {
                &&& sent.call->Fault_encoding_id is Some == o.encoding._this.state is Some
                &&& o.encoding._this.state is Some ==> 2 * sent.call->Fault_encoding_id->0
                    + o.encoding._this.state->0.packed_id % 2
                    == o.encoding._this.state->0.packed_id
                &&& o.encoding._this.state is Some ==> sent.call->Fault_schema
                    == o.encoding._this.state->0.schema
            }
        },
{
    if outcome.code == 0 && old(query).deferred is None {
        let n = old(query).replies@.len() as int;
        assert(final(query).replies@.take(n) =~= old(query).replies@);
    }
}

/// A query escapes where it came over a session: the escape is counted, and the copy
/// asks the same, answers over that session under the query's own id, takes replies
/// under the keys the query takes them under, and cannot escape again. The replies
/// recorded so far stay with the query.
pub proof fn lemma_an_escaped_query_asks_the_same(
    query: &mut z_loaned_query_t,
    escaped: Option<QueryMarshal>,
)
    requires
        old(query).keyexpr.state is Some,
        old(query).escapes < u32::MAX,
        call_ensures(escape_query, (Some(query),), escaped),
    ensures
        escaped is Some == old(query).session is Some,
        escaped is None ==> *final(query) == *old(query),
        final(query).replies == old(query).replies,
        final(query).session == old(query).session,
        escaped is Some ==> final(query).escapes == old(query).escapes + 1,
        escaped matches Some(copy) ==> {
            &&& copy.bound
            &&& copy.session is None
            &&& copy.replies@.len() == 0
            &&& copy.deferred is Some
            &&& copy.deferred->0.session == old(query).session->0
            &&& copy.deferred->0.rid == old(query).rid
            &&& copy.deferred->0.accept == ReplyKeyExpr::Any <==> old(query).anyke
            &&& copy.rid == old(query).rid
            &&& copy.anyke == old(query).anyke
            &&& copy.keyexpr.state is Some
            &&& copy.keyexpr.state->0.keyexpr@ == old(query).keyexpr.state->0.keyexpr@
            &&& copy.parameters@ == old(query).parameters@
            &&& copy.payload is Some == old(query).payload is Some
            &&& copy.payload is Some && old(query).payload->0.state is Some
                ==> copy.payload->0.state is Some && copy.payload->0.state->0.payload@ == old(query).payload->0.state->0.payload@
            &&& copy.attachment is Some == old(query).attachment is Some
            &&& copy.attachment is Some && old(query).attachment->0.state is Some
                ==> copy.attachment->0.state is Some && copy.attachment->0.state->0.payload@ == old(query).attachment->0.state->0.payload@
            &&& copy.encoding.packed_id == old(query).encoding.packed_id
            &&& copy.source_info == old(query).source_info
        },
{
}

/// Copying a query and taking it from a borrow are both escapes.
pub proof fn lemma_a_copied_query_has_escaped(
    query: &mut z_loaned_query_t,
    dst: &mut z_owned_query_t,
    taken: &mut z_loaned_query_t,
    owned: &mut z_owned_query_t,
)
    requires
        old(query).escapes < u32::MAX,
        old(taken).escapes < u32::MAX,
        call_ensures(z_query_clone, (Some(dst), Some(query)), ()),
        call_ensures(z_query_take_from_loaned, (Some(owned), Some(taken)), ()),
    ensures
        final(dst).state is Some == old(query).session is Some,
        final(dst).state is Some ==> final(query).escapes == old(query).escapes + 1,
        final(dst).state matches Some(copy) ==> copy.deferred is Some && copy.deferred->0.session
            == old(query).session->0 && copy.deferred->0.rid == old(query).rid && copy.rid == old(query).rid,
        final(owned).state is Some == old(taken).session is Some,
        final(owned).state is Some ==> final(taken).escapes == old(taken).escapes + 1,
        final(owned).state matches Some(copy) ==> copy.deferred is Some && copy.deferred->0.session
            == old(taken).session->0 && copy.deferred->0.rid == old(taken).rid,
{
}

/// Dropping an escaped query gives up its hold on its own final response, once, and
/// dropping any other gives up none.
pub proof fn lemma_dropping_an_escaped_query_gives_up_its_hold(
    moved: &mut z_moved_query_t,
    due: Option<FinalRelease>,
)
    requires
        call_ensures(z_query_drop, (Some(moved),), due),
    ensures
        final(moved)._this.state is None,
        due is Some == (old(moved)._this.state is Some && old(moved)._this.state->0.deferred is Some),
        due is Some ==> due->0.session == old(moved)._this.state->0.deferred->0.session
            && due->0.rid == old(moved)._this.state->0.deferred->0.rid,
{
}

/// What is read of a query is what it holds.
pub proof fn lemma_a_query_is_read_as_it_is<'a>(
    m: &'a z_loaned_query_t,
    keyexpr: Option<&z_loaned_keyexpr_t>,
    accepts: u32,
    info: Option<&z_source_info_t>,
    parameters: &mut SliceRepr<'a>,
    payload: Option<&z_loaned_bytes_t>,
    attachment: Option<&z_loaned_bytes_t>,
    encoding: Option<&EncodingHint>,
)
    requires
        call_ensures(z_query_keyexpr, (Some(m),), keyexpr),
        call_ensures(z_query_accepts_replies, (Some(m),), accepts),
        call_ensures(z_query_source_info, (Some(m),), info),
        call_ensures(z_query_parameters, (Some(m), Some(parameters)), ()),
        call_ensures(z_query_payload, (Some(m),), payload),
        call_ensures(z_query_attachment, (Some(m),), attachment),
        call_ensures(z_query_encoding, (Some(m),), encoding),
    ensures
        keyexpr is Some == m.bound,
        keyexpr is Some ==> *keyexpr->0 == m.keyexpr,
        accepts == 0 <==> m.anyke,
        accepts == 1 <==> !m.anyke,
        info is Some == m.source_info is Some,
        info is Some ==> *info->0 == m.source_info->0,
        *final(parameters) is Viewed,
        final(parameters)->Viewed_0@ == m.parameters@,
        payload is Some == (m.bound && m.payload is Some),
        payload is Some ==> *payload->0 == m.payload->0,
        attachment is Some == (m.bound && m.attachment is Some),
        attachment is Some ==> *attachment->0 == m.attachment->0,
        encoding is Some == m.bound,
        encoding is Some ==> *encoding->0 == m.encoding,
{
}

/// A queryable's options come out as they were asked for. Without options it is not
/// complete and takes queries from anywhere.
pub proof fn lemma_queryable_options_are_resolved_as_asked(
    options: Option<&z_queryable_options_t>,
    r: (bool, Locality),
    defaults: &mut z_queryable_options_t,
)
    requires
        call_ensures(queryable_declare_params, (options,), r),
        call_ensures(z_queryable_options_default, (Some(defaults),), ()),
    ensures
        options matches Some(o) ==> {
            &&& r.0 == o.complete
            &&& r.1 == Locality::SessionLocal <==> o.allowed_origin == 1
            &&& r.1 == Locality::Remote <==> o.allowed_origin == 2
        },
        options is None ==> !r.0 && r.1 == Locality::Any,
        !final(defaults).complete,
        final(defaults).allowed_origin == 0,
{
}

/// A queryable is declared on its session under its text with its options and its
/// closure, where the text may go on the wire. Its handle holds the id the session
/// answered and can be asked for its key expression. Where nothing is declared the
/// closure's drop is due.
pub proof fn lemma_a_queryable_is_declared_as_asked<
    O: Fn(&str) -> bool,
    D: FnOnce(QueryableDeclaration) -> u64,
>(
    session: Option<&z_loaned_session_t>,
    queryable: &mut z_owned_queryable_t,
    key_expr: Option<&z_loaned_keyexpr_t>,
    callback: &mut MovedClosure,
    options: Option<&z_queryable_options_t>,
    outbound: &O,
    declare: D,
    r: (ZResult, Option<DropCall>),
)
    requires
        call_ensures(
            z_declare_queryable::<O, D>,
            (session, Some(queryable), key_expr, Some(callback), options, outbound, declare),
            r,
        ),
    ensures
        final(callback)._this.call is None && final(callback)._this.drop is None,
        final(queryable).state is Some == (r.0 == 0),
        r.0 == 0 ==> r.1 is None,
        r.0 != 0 ==> r.1 is Some == old(callback)._this.drop is Some,
        r.0 != 0 && r.1 is Some ==> r.1->0.drop == old(callback)._this.drop->0 && r.1->0.context
            == old(callback)._this.context,
        session is None || session->0.state is None || key_expr is None || key_expr->0.state is None
            ==> r.0 == -5,
        session is Some && session->0.state is Some && key_expr is Some && key_expr->0.state is Some
            ==> {
            let text = key_expr->0.state->0.keyexpr@;
            let shared = session->0.state->0.shared;
            let state = final(queryable).state->0;
            &&& r.0 == 0 || r.0 == -1
            &&& exists|t: &str, ok: bool|
                t@ == text && ok == (r.0 == 0) && #[trigger] call_ensures(*outbound, (t,), ok)
            &&& r.0 == 0 ==> {
                &&& state.shared == shared
                &&& state.keyexpr.bound
                &&& state.keyexpr.state.state is Some
                &&& state.keyexpr.state.state->0.keyexpr@ == text
                &&& exists|d: QueryableDeclaration|
                    {
                        &&& #[trigger] call_ensures(declare, (d,), state.id)
                        &&& d.session == shared
                        &&& d.keyexpr@ == text
                        &&& d.closure == old(callback)._this
                        &&& options matches Some(o) ==> d.complete == o.complete
                        &&& options is None ==> !d.complete && d.allowed_origin == Locality::Any
                        &&& options matches Some(o) ==> (d.allowed_origin == Locality::SessionLocal
                            <==> o.allowed_origin == 1)
                        &&& options matches Some(o) ==> (d.allowed_origin == Locality::Remote
                            <==> o.allowed_origin == 2)
                    }
            }
        },
{
}

/// A background queryable is declared as any other, and nothing is left to hold.
pub proof fn lemma_a_background_queryable_is_declared_as_asked<
    O: Fn(&str) -> bool,
    D: FnOnce(QueryableDeclaration) -> u64,
>(
    session: &z_loaned_session_t,
    key_expr: &z_loaned_keyexpr_t,
    callback: &mut MovedClosure,
    options: Option<&z_queryable_options_t>,
    outbound: &O,
    declare: D,
    r: (ZResult, Option<DropCall>),
)
    requires
        call_ensures(
            z_declare_background_queryable::<O, D>,
            (Some(session), Some(key_expr), Some(callback), options, outbound, declare),
            r,
        ),
        session.state is Some,
        key_expr.state is Some,
    ensures
        final(callback)._this.call is None && final(callback)._this.drop is None,
        r.0 == 0 || r.0 == -1,
        r.0 == 0 ==> r.1 is None,
        r.0 != 0 ==> r.1 is Some == old(callback)._this.drop is Some,
        exists|t: &str, ok: bool|
            t@ == key_expr.state->0.keyexpr@ && ok == (r.0 == 0) && #[trigger] call_ensures(
                *outbound,
                (t,),
                ok,
            ),
        r.0 == 0 ==> exists|d: QueryableDeclaration, id: u64|
            {
                &&& #[trigger] call_ensures(declare, (d,), id)
                &&& d.session == session.state->0.shared
                &&& d.keyexpr@ == key_expr.state->0.keyexpr@
                &&& d.closure == old(callback)._this
                &&& options matches Some(o) ==> d.complete == o.complete
                &&& options is None ==> !d.complete && d.allowed_origin == Locality::Any
            },
{
}

/// A queryable's identity is what its session gives for that handle, and giving it up
/// retracts it from its session under its id, once.
pub proof fn lemma_a_queryable_is_read_and_retracted<
    F: FnOnce(u64, usize) -> z_entity_global_id_t,
>(
    queryable: Option<&z_loaned_queryable_t>,
    address: usize,
    for_entity: F,
    id: z_entity_global_id_t,
    loaned: Option<&z_loaned_keyexpr_t>,
    undeclared: &mut z_moved_queryable_t,
    r: (ZResult, Option<QueryableRetraction>),
    dropped: &mut z_moved_queryable_t,
    due: Option<QueryableRetraction>,
)
    requires
        call_ensures(z_queryable_id::<F>, (queryable, address, for_entity), id),
        call_ensures(z_queryable_keyexpr, (queryable,), loaned),
        call_ensures(z_undeclare_queryable, (Some(undeclared),), r),
        call_ensures(z_queryable_drop, (Some(dropped),), due),
    ensures
        queryable is Some && queryable->0.state is Some ==> call_ensures(
            for_entity,
            (queryable->0.state->0.shared, address),
            id,
        ),
        queryable is None || queryable->0.state is None ==> id.eid == 0,
        loaned is Some == (queryable is Some && queryable->0.state is Some
            && queryable->0.state->0.keyexpr.bound),
        loaned is Some ==> *loaned->0 == queryable->0.state->0.keyexpr.state,
        r.0 == 0,
        r.1 is Some == old(undeclared)._this.state is Some,
        r.1 is Some ==> r.1->0.session == old(undeclared)._this.state->0.shared && r.1->0.id == old(undeclared)._this.state->0.id,
        final(undeclared)._this.state is None,
        due is Some == old(dropped)._this.state is Some,
        due is Some ==> due->0.session == old(dropped)._this.state->0.shared && due->0.id == old(dropped)._this.state->0.id,
        final(dropped)._this.state is None,
{
}

/// Default reply options own nothing, block where the way is congested and have data
/// priority.
pub proof fn lemma_default_reply_options_have_their_numbers(
    reply: &mut z_query_reply_options_t,
    del: &mut z_query_reply_del_options_t,
    fault: &mut z_query_reply_err_options_t,
)
    requires
        call_ensures(z_query_reply_options_default, (Some(reply),), ()),
        call_ensures(z_query_reply_del_options_default, (Some(del),), ()),
        call_ensures(z_query_reply_err_options_default, (Some(fault),), ()),
    ensures
        final(reply).encoding._this.state is None,
        final(reply).attachment._this.state is None,
        final(reply).congestion_control == 0,
        final(reply).priority == 5,
        !final(reply).is_express,
        final(reply).timestamp is None && final(reply).source_info is None,
        final(del).attachment._this.state is None,
        final(del).congestion_control == 0,
        final(del).priority == 5,
        !final(del).is_express,
        final(del).timestamp is None && final(del).source_info is None,
        final(fault).encoding._this.state is None,
{
}

} // verus!
