//! Queries: what a queryable's callback receives, and how it answers.
//!
//! A callback may answer at once or let the query escape and answer later. The
//! final response must not go out before the last holder is done, so each escape
//! is counted, takes one hold on the final response when the callback returns,
//! and gives it up when the escaped query is dropped.

use vstd::prelude::*;
use vstd::string::*;
use vstd::utf8::decode_utf8;
use vstd::utf8::valid_utf8;

use crate::bytes::copy_bytes;
use crate::bytes::payload_of;
use crate::bytes::take_payload;
use crate::bytes::z_loaned_bytes_t;
use crate::bytes::z_moved_bytes_t;
use crate::bytes::BytesState;
use crate::closure::adopt;
use crate::closure::build;
use crate::closure::discard;
use crate::closure::CClosure;
use crate::closure::DropCall;
use crate::closure::Invocation;
use crate::closure::MovedClosure;
use crate::handle::gravestone;
use crate::handle::is_live;
use crate::handle::live;
use crate::handle::state_of;
use crate::handle::take;
use crate::handle::Moved;
use crate::handle::Owned;
use crate::keyexpr::ask;
use crate::keyexpr::keyexpr_str;
use crate::keyexpr::matcher_says;
use crate::keyexpr::text_of;
use crate::keyexpr::z_loaned_keyexpr_t;
use crate::keyexpr::DeclaredKeyexpr;
use crate::keyexpr::KeyexprState;
use crate::meta::run_of;
use crate::meta::take_moved_encoding;
use crate::meta::z_moved_encoding_t;
use crate::meta::z_entity_global_id_t;
use crate::meta::z_source_info_t;
use crate::meta::z_timestamp_t;
use crate::meta::EncodingHint;
use crate::put::locality_from_c;
use crate::put::locality_of;
use crate::publisher::ZC_LOCALITY_ANY;
use crate::qos::Locality;
use crate::result::ZResult;
use crate::result::Z_EINVAL;
use crate::result::Z_ENULL;
use crate::result::Z_OK;
use crate::sample::carries_run;
use crate::sample::copy_slot;
use crate::sample::same_optional_slot;
use crate::sample::same_text_held;
use crate::session::z_loaned_session_t;
use crate::slice::SliceRepr;
use crate::string::z_view_string_t;
use crate::text::is_split;
use crate::text::lemma_split_is_unique;
use crate::text::split;
use crate::text::texts;
use crate::text::utf8_text;

verus! {

/// A reply a callback asked for.
pub enum PendingReply {
    /// A value under a key.
    Put {
        keyexpr: String,
        payload: Vec<u8>,
        encoding: Option<EncodingHint>,
        attachment: Option<Vec<u8>>,
        timestamp: Option<z_timestamp_t>,
        source_info: Option<z_source_info_t>,
    },
    /// A deletion under a key. It has no encoding.
    Del {
        keyexpr: String,
        attachment: Option<Vec<u8>>,
        timestamp: Option<z_timestamp_t>,
        source_info: Option<z_source_info_t>,
    },
    /// An error. It answers the query and has no key.
    Fault { payload: Vec<u8>, encoding: Option<EncodingHint> },
}

/// What rides beside a keyed reply.
pub struct ReplyMeta {
    pub encoding: Option<EncodingHint>,
    pub timestamp: Option<z_timestamp_t>,
    pub source_info: Option<z_source_info_t>,
    pub attachment: Option<Vec<u8>>,
}

/// A reply as it is put on the wire.
pub enum ReplyCall {
    /// A value under a key.
    Keyed { keyexpr: String, payload: Vec<u8>, meta: ReplyMeta },
    /// A deletion under a key.
    KeyedDel { keyexpr: String, meta: ReplyMeta },
    /// An error, with the number of its content type and its schema.
    Fault { encoding_id: Option<u32>, schema: Option<Vec<u8>>, payload: Vec<u8> },
}

/// The wire form of a reply. A deletion carries no encoding. An error carries the
/// number of its content type, which is the packed number without its low bit.
pub open spec fn wire_form(reply: PendingReply) -> ReplyCall {
    match reply {
        PendingReply::Put { keyexpr, payload, encoding, attachment, timestamp, source_info } =>
            ReplyCall::Keyed {
            keyexpr,
            payload,
            meta: ReplyMeta { encoding, timestamp, source_info, attachment },
        },
        PendingReply::Del { keyexpr, attachment, timestamp, source_info } => ReplyCall::KeyedDel {
            keyexpr,
            meta: ReplyMeta { encoding: None, timestamp, source_info, attachment },
        },
        PendingReply::Fault { payload, encoding } => match encoding {
            Some(hint) => ReplyCall::Fault {
                encoding_id: Some((hint.packed_id / 2) as u32),
                schema: hint.schema,
                payload,
            },
            None => ReplyCall::Fault { encoding_id: None, schema: None, payload },
        },
    }
}

/// Puts one reply into its wire form: the one way for an immediate reply and for
/// a deferred one, so that the two cannot differ.
pub fn flush_one(reply: PendingReply) -> (call: ReplyCall)
    ensures
        call == wire_form(reply),
{
    match reply {
        PendingReply::Put { keyexpr, payload, encoding, attachment, timestamp, source_info } =>
            ReplyCall::Keyed {
            keyexpr,
            payload,
            meta: ReplyMeta { encoding, timestamp, source_info, attachment },
        },
        PendingReply::Del { keyexpr, attachment, timestamp, source_info } => ReplyCall::KeyedDel {
            keyexpr,
            meta: ReplyMeta { encoding: None, timestamp, source_info, attachment },
        },
        PendingReply::Fault { payload, encoding } => match encoding {
            Some(hint) => ReplyCall::Fault {
                encoding_id: Some(hint.packed_id / 2),
                schema: hint.schema,
                payload,
            },
            None => ReplyCall::Fault { encoding_id: None, schema: None, payload },
        },
    }
}

/// Which keys a query takes replies under.
#[derive(Clone, Copy, Debug, PartialEq, Eq, Structural)]
pub enum ReplyKeyExpr {
    Any,
    MatchingQuery,
}

/// What an escaped query answers through.
#[derive(Clone, Copy, Debug, PartialEq, Eq, Structural)]
pub struct DeferredResponder {
    pub session: u64,
    pub rid: u64,
    pub accept: ReplyKeyExpr,
}

/// A hold on a query's final response to be given up.
#[derive(Clone, Copy, Debug, PartialEq, Eq, Structural)]
pub struct FinalRelease {
    pub session: u64,
    pub rid: u64,
}

/// A reply to be sent now, through an escaped query.
pub struct DeferredReply {
    pub responder: DeferredResponder,
    pub query_keyexpr: String,
    pub call: ReplyCall,
}

/// Whether a field of a selector asks for replies under any key.
pub open spec fn names_anyke(field: Seq<char>) -> bool {
    field == "_anyke"@ || "_anyke="@.is_prefix_of(field)
}

/// Whether a selector asks for replies under any key: it is readable, and one of
/// the fields between its ampersands does.
pub open spec fn has_anyke(parameters: Seq<u8>) -> bool {
    valid_utf8(parameters) && exists|fields: Seq<Seq<char>>, i: int|
        #![trigger is_split(decode_utf8(parameters), '&', fields), fields[i]]
        is_split(decode_utf8(parameters), '&', fields) && 0 <= i < fields.len() && names_anyke(
            fields[i],
        )
}

fn field_names_anyke(field: &String) -> (r: bool)
    ensures
        r == names_anyke(field@),
{
    let bare = "_anyke".to_owned();
    if *field == bare {
        return true;
    }
    let n: usize = field.as_str().unicode_len();
    proof {
        reveal_strlit("_anyke=");
    }
    if n < 7 {
        return false;
    }
    let head = field.as_str().substring_char(0, 7).to_owned();
    let with_value = "_anyke=".to_owned();
    let r: bool = head == with_value;
    proof {
        assert(field@.subrange(0, 7) =~= field@.take(7));
        if r {
            assert("_anyke="@.is_prefix_of(field@));
        } else if "_anyke="@.is_prefix_of(field@) {
            assert(field@.subrange(0, 7) =~= "_anyke="@);
        }
    }
    r
}

/// Whether a selector asks for replies under any key.
pub fn parameters_has_anyke(parameters: &[u8]) -> (r: bool)
    ensures
        r == has_anyke(parameters@),
{
    match utf8_text(parameters) {
        None => false,
        Some(text) => {
            let fields = split(text, '&');
            let ghost cut = texts(fields@);
            let mut i: usize = 0;
            while i < fields.len()
                invariant
                    valid_utf8(parameters@),
                    text@ == decode_utf8(parameters@),
                    cut == texts(fields@),
                    is_split(text@, '&', cut),
                    i <= fields@.len(),
                    forall|k: int| 0 <= k < i ==> !names_anyke(#[trigger] cut[k]),
                decreases fields@.len() - i,
            {
                assert(cut[i as int] == fields@[i as int]@);
                if field_names_anyke(&fields[i]) {
                    return true;
                }
                i = i + 1;
            }
            proof {
                assert forall|other: Seq<Seq<char>>, k: int| #![trigger
                    is_split(decode_utf8(parameters@), '&', other), other[k]]
                    is_split(decode_utf8(parameters@), '&', other) && 0 <= k < other.len()
                        implies !names_anyke(other[k]) by {
                    lemma_split_is_unique(text@, '&', cut, other);
                }
            }
            false
        },
    }
}

/// Whether a reply's key is covered by a query: any key is where the query asked
/// for it, else `intersects` decides over the chunks of both.
pub fn reply_keyexpr_is_covered<M: Fn(&Vec<String>, &Vec<String>) -> bool>(
    query_keyexpr: &str,
    reply: &str,
    anyke: bool,
    intersects: &M,
) -> (r: bool)
    requires
        forall|a: &Vec<String>, b: &Vec<String>| call_requires(intersects, (a, b)),
    ensures
        covered(*intersects, query_keyexpr@, reply@, anyke, r),
{
    if anyke {
        return true;
    }
    ask(query_keyexpr, reply, intersects)
}

/// Whether `answer` is whether a reply's key is covered by a query.
pub open spec fn covered<M: Fn(&Vec<String>, &Vec<String>) -> bool>(
    intersects: M,
    query_keyexpr: Seq<char>,
    reply: Seq<char>,
    anyke: bool,
    answer: bool,
) -> bool {
    if anyke {
        answer
    } else {
        matcher_says(intersects, query_keyexpr, reply, answer)
    }
}

/// A query as it is delivered.
pub struct QueryView {
    pub keyexpr: String,
    pub parameters: Option<Vec<u8>>,
    pub payload: Option<Vec<u8>>,
    pub attachment: Option<Vec<u8>>,
    pub encoding: Option<EncodingHint>,
    pub source_info: Option<z_source_info_t>,
    pub rid: u64,
}

/// The copy behind a borrowed query.
pub struct QueryMarshal {
    pub keyexpr: z_loaned_keyexpr_t,
    pub parameters: Vec<u8>,
    pub anyke: bool,
    pub payload: Option<z_loaned_bytes_t>,
    pub attachment: Option<z_loaned_bytes_t>,
    pub encoding: EncodingHint,
    pub source_info: Option<z_source_info_t>,
    pub rid: u64,
    /// The session the query came over. Without one it cannot escape.
    pub session: Option<u64>,
    /// How often the query has escaped.
    pub escapes: u32,
    /// Present on an escaped query.
    pub deferred: Option<DeferredResponder>,
    /// The replies asked for, in order.
    pub replies: Vec<PendingReply>,
    pub bound: bool,
}

/// A borrowed query.
pub type z_loaned_query_t = QueryMarshal;

/// An owned query.
pub type z_owned_query_t = Owned<QueryMarshal>;

/// A query on its way to be consumed.
pub type z_moved_query_t = Moved<QueryMarshal>;

impl QueryMarshal {
    /// The marshal holds a key expression, and knows what its selector asks for.
    pub open spec fn wf(&self) -> bool {
        &&& self.keyexpr.state is Some
        &&& self.anyke == has_anyke(self.parameters@)
    }

    /// The text of the query's key expression.
    pub open spec fn text(&self) -> Seq<char> {
        self.keyexpr.state->0.keyexpr@
    }

    /// Whether the marshal holds what the query asked.
    pub open spec fn asks(
        &self,
        keyexpr: Seq<char>,
        parameters: Seq<u8>,
        payload: Option<Seq<u8>>,
        attachment: Option<Seq<u8>>,
        source_info: Option<z_source_info_t>,
        rid: u64,
    ) -> bool {
        &&& self.keyexpr.state matches Some(state) && state.keyexpr@ == keyexpr
            && state.mapping is None
        &&& self.parameters@ == parameters
        &&& carries_run(self.payload, payload)
        &&& carries_run(self.attachment, attachment)
        &&& self.source_info == source_info
        &&& self.rid == rid
    }

    /// Whether two marshals hold the same question.
    pub open spec fn same_question(&self, other: &QueryMarshal) -> bool {
        &&& same_text_held(self.keyexpr, other.keyexpr)
        &&& self.parameters@ == other.parameters@
        &&& same_optional_slot(self.payload, other.payload)
        &&& same_optional_slot(self.attachment, other.attachment)
        &&& self.source_info == other.source_info
        &&& self.rid == other.rid
        &&& self.anyke == other.anyke
        &&& self.encoding.same_as(&other.encoding)
    }

    /// Builds a marshal, unbound and with no reply asked for. A query without an
    /// encoding has the default one.
    pub fn new(view: &QueryView) -> (marshal: QueryMarshal)
        ensures
            marshal.wf(),
            marshal.asks(
                view.keyexpr@,
                match view.parameters {
                    Some(parameters) => parameters@,
                    None => Seq::<u8>::empty(),
                },
                run_of(view.payload),
                run_of(view.attachment),
                view.source_info,
                view.rid,
            ),
            match view.encoding {
                Some(hint) => marshal.encoding.same_as(&hint),
                None => marshal.encoding.is_default(),
            },
            marshal.session is None,
            marshal.escapes == 0,
            marshal.deferred is None,
            marshal.replies@.len() == 0,
            !marshal.bound,
    {
        let parameters = match &view.parameters {
            Some(parameters) => copy_bytes(parameters),
            None => Vec::new(),
        };
        let anyke = parameters_has_anyke(parameters.as_slice());
        QueryMarshal {
            keyexpr: Owned::from_state(KeyexprState::new(view.keyexpr.clone())),
            anyke,
            parameters,
            payload: match &view.payload {
                Some(run) => Some(Owned::from_state(BytesState::whole(copy_bytes(run)))),
                None => None,
            },
            attachment: match &view.attachment {
                Some(run) => Some(Owned::from_state(BytesState::whole(copy_bytes(run)))),
                None => None,
            },
            encoding: match &view.encoding {
                Some(hint) => hint.deep_copy(),
                None => EncodingHint::default_encoding(),
            },
            source_info: view.source_info,
            rid: view.rid,
            session: None,
            escapes: 0,
            deferred: None,
            replies: Vec::new(),
            bound: false,
        }
    }

    /// Binds the marshal: its accessors have something to borrow from now on.
    pub fn bind(&mut self)
        ensures
            *final(self) == (QueryMarshal { bound: true, ..*old(self) }),
    {
        self.bound = true;
    }

    /// Gives the marshal the session it came over, so that it can escape.
    pub fn with_session(self, session: u64) -> (marshal: QueryMarshal)
        ensures
            marshal == (QueryMarshal { session: Some(session), ..self }),
    {
        let mut marshal = self;
        marshal.session = Some(session);
        marshal
    }

    /// The responder an escaped copy gets.
    pub open spec fn responder(&self, session: u64) -> DeferredResponder {
        DeferredResponder {
            session,
            rid: self.rid,
            accept: if self.anyke {
                ReplyKeyExpr::Any
            } else {
                ReplyKeyExpr::MatchingQuery
            },
        }
    }

    /// An independent copy that answers through a deferred responder. It starts
    /// with no reply: those asked for so far stay with the query it copies. It has
    /// no session, so it cannot escape again.
    pub fn deep_copy_deferred(&self, session: u64) -> (copy: QueryMarshal)
        requires
            self.wf(),
        ensures
            copy.wf(),
            copy.same_question(self),
            copy.deferred == Some(self.responder(session)),
            copy.session is None,
            copy.escapes == 0,
            copy.replies@.len() == 0,
            !copy.bound,
    {
        QueryMarshal {
            keyexpr: match &self.keyexpr.state {
                Some(state) => Owned::from_state(KeyexprState::new(state.keyexpr.clone())),
                None => Owned::null_value(),
            },
            parameters: copy_bytes(&self.parameters),
            anyke: self.anyke,
            payload: match &self.payload {
                Some(slot) => Some(copy_slot(slot)),
                None => None,
            },
            attachment: match &self.attachment {
                Some(slot) => Some(copy_slot(slot)),
                None => None,
            },
            encoding: self.encoding.deep_copy(),
            source_info: self.source_info,
            rid: self.rid,
            session: None,
            escapes: 0,
            deferred: Some(
                DeferredResponder {
                    session,
                    rid: self.rid,
                    accept: if self.anyke {
                        ReplyKeyExpr::Any
                    } else {
                        ReplyKeyExpr::MatchingQuery
                    },
                },
            ),
            replies: Vec::new(),
            bound: false,
        }
    }

    /// Takes and clears the count of escapes.
    pub fn take_escapes(&mut self) -> (escapes: u32)
        ensures
            escapes == old(self).escapes,
            *final(self) == (QueryMarshal { escapes: 0, ..*old(self) }),
    {
        let escapes: u32 = self.escapes;
        self.escapes = 0;
        escapes
    }

    /// Takes the replies asked for, in order and in their wire form, and leaves
    /// none.
    pub fn flush(&mut self) -> (calls: Vec<ReplyCall>)
        ensures
            calls@ == old(self).replies@.map_values(|reply: PendingReply| wire_form(reply)),
            final(self).replies@.len() == 0,
            *final(self) == (QueryMarshal { replies: final(self).replies, ..*old(self) }),
    {
        let ghost asked = self.replies@;
        let ghost wire = |reply: PendingReply| wire_form(reply);
        let mut left: Vec<PendingReply> = Vec::new();
        core::mem::swap(&mut left, &mut self.replies);
        let mut backwards: Vec<ReplyCall> = Vec::new();
        let ghost mut done: int = 0;
        while left.len() > 0
            invariant
                left@ == asked.take(asked.len() - done),
                0 <= done <= asked.len(),
                backwards@.len() == done,
                forall|k: int|
                    0 <= k < done ==> #[trigger] backwards@[k] == wire_form(
                        asked[asked.len() - 1 - k],
                    ),
            decreases left@.len(),
        {
            let reply = left.pop();
            if let Some(reply) = reply {
                backwards.push(flush_one(reply));
                proof {
                    done = done + 1;
                    assert(left@ =~= asked.take(asked.len() - done));
                }
            }
        }
        let mut calls: Vec<ReplyCall> = Vec::new();
        while backwards.len() > 0
            invariant
                done == asked.len(),
                backwards@.len() + calls@.len() == asked.len(),
                forall|k: int|
                    0 <= k < backwards@.len() ==> #[trigger] backwards@[k] == wire_form(
                        asked[asked.len() - 1 - k],
                    ),
                forall|k: int|
                    0 <= k < calls@.len() ==> #[trigger] calls@[k] == wire_form(asked[k]),
            decreases backwards@.len(),
        {
            if let Some(call) = backwards.pop() {
                calls.push(call);
            }
        }
        proof {
            assert(calls@ =~= asked.map_values(wire));
        }
        calls
    }

    /// Records a reply: an escaped query sends it now, any other keeps it until
    /// it is flushed.
    pub fn push_reply(&mut self, reply: PendingReply) -> (due: Option<DeferredReply>)
        requires
            old(self).wf(),
        ensures
            final(self).wf(),
            recorded(*old(self), *final(self), reply, due),
    {
        match self.deferred {
            Some(responder) => Some(
                DeferredReply {
                    responder,
                    query_keyexpr: match &self.keyexpr.state {
                        Some(state) => state.keyexpr.clone(),
                        None => String::new(),
                    },
                    call: flush_one(reply),
                },
            ),
            None => {
                self.replies.push(reply);
                None
            },
        }
    }

    /// The marshal as the borrowed query.
    pub fn as_loaned(&self) -> (loaned: &z_loaned_query_t)
        ensures
            *loaned == *self,
    {
        self
    }
}

/// What recording a reply does: an escaped query hands it back to be sent now and
/// stays as it was, any other appends it.
pub open spec fn recorded(
    before: QueryMarshal,
    after: QueryMarshal,
    reply: PendingReply,
    due: Option<DeferredReply>,
) -> bool {
    match before.deferred {
        Some(responder) => {
            &&& after == before
            &&& due matches Some(sent) && sent.responder == responder && sent.query_keyexpr@
                == before.text() && sent.call == wire_form(reply)
        },
        None => {
            &&& due is None
            &&& after.replies@ == before.replies@.push(reply)
            &&& after == (QueryMarshal { replies: after.replies, ..before })
        },
    }
}

/// Copies a borrowed query so that it can be answered after its callback has
/// returned, and counts the escape. A query without a session cannot be answered
/// later, so it does not escape.
pub fn escape_query(src: Option<&mut z_loaned_query_t>) -> (escaped: Option<QueryMarshal>)
    requires
        src matches Some(m) ==> m.wf() && m.escapes < u32::MAX,
    ensures
        match src {
            Some(m) => {
                &&& final(m).wf()
                &&& has_escaped(*m, *final(m), escaped)
            },
            None => escaped is None,
        },
{
    match src {
        None => None,
        Some(m) => match m.session {
            None => None,
            Some(session) => {
                let mut copy = m.deep_copy_deferred(session);
                copy.bind();
                m.escapes = m.escapes + 1;
                Some(copy)
            },
        },
    }
}

/// What an escape does: it is counted once, and the copy asks the same, is bound,
/// answers through the query's session, has no reply and cannot escape again.
pub open spec fn has_escaped(
    before: QueryMarshal,
    after: QueryMarshal,
    escaped: Option<QueryMarshal>,
) -> bool {
    match before.session {
        None => escaped is None && after == before,
        Some(session) => {
            &&& after == (QueryMarshal { escapes: (before.escapes + 1) as u32, ..before })
            &&& escaped matches Some(copy) && copy.wf() && copy.bound && copy.same_question(
                &before,
            ) && copy.deferred == Some(before.responder(session)) && copy.session is None
                && copy.replies@.len() == 0
        },
    }
}

/// The hold that dropping a query gives up: an escaped one has one.
pub open spec fn release_of(query: QueryMarshal) -> Option<FinalRelease> {
    match query.deferred {
        Some(responder) => Some(
            FinalRelease { session: responder.session, rid: responder.rid },
        ),
        None => None,
    }
}

/// Each escape takes one hold on the final response, and dropping the escaped
/// copy gives up exactly that one: the count the callback leaves behind is the
/// number of releases to come, all of them for the query's own session and id.
pub proof fn lemma_an_escape_is_one_hold_and_one_release(
    before: QueryMarshal,
    after: QueryMarshal,
    escaped: Option<QueryMarshal>,
)
    requires
        before.escapes < u32::MAX,
        has_escaped(before, after, escaped),
    ensures
        after.escapes - before.escapes == (if escaped is Some {
            1int
        } else {
            0int
        }),
        escaped matches Some(copy) ==> release_of(copy) == Some(
            FinalRelease { session: before.session->0, rid: before.rid },
        ),
        escaped matches Some(copy) ==> copy.session is None,
        after.replies == before.replies,
{
}

/// A query on its way to its callback: the call that is due, and the marshal to
/// call with.
pub struct QueryDispatch {
    pub invocation: Invocation,
    pub marshal: QueryMarshal,
}

/// Starts delivering a query over a session to a queryable's closure. A closure
/// without a function gets nothing.
pub fn begin_dispatch(closure: &CClosure, view: &QueryView, session: u64) -> (dispatch: Option<
    QueryDispatch,
>)
    ensures
        match closure.invocation() {
            None => dispatch is None,
            Some(invocation) => {
                &&& dispatch matches Some(d) && d.invocation == invocation && d.marshal.wf()
                    && d.marshal.bound && d.marshal.session == Some(session) && d.marshal.escapes
                    == 0 && d.marshal.deferred is None && d.marshal.replies@.len() == 0
                    && d.marshal.asks(
                    view.keyexpr@,
                    match view.parameters {
                        Some(parameters) => parameters@,
                        None => Seq::<u8>::empty(),
                    },
                    run_of(view.payload),
                    run_of(view.attachment),
                    view.source_info,
                    view.rid,
                ) && match view.encoding {
                    Some(hint) => d.marshal.encoding.same_as(&hint),
                    None => d.marshal.encoding.is_default(),
                }
            },
        },
{
    match closure.invoke() {
        None => None,
        Some(invocation) => {
            let mut marshal = QueryMarshal::new(view).with_session(session);
            marshal.bind();
            Some(QueryDispatch { invocation, marshal })
        },
    }
}

/// What is left to do when a query's callback has returned.
pub struct DispatchEnd {
    /// How many holds to take on the final response, before anything is sent.
    pub holds: u32,
    /// The query they are taken for.
    pub rid: u64,
    /// The replies to send, in order.
    pub calls: Vec<ReplyCall>,
}

/// Ends delivering a query: one hold for each escape, then the replies asked for.
pub fn end_dispatch(marshal: QueryMarshal) -> (end: DispatchEnd)
    ensures
        end.holds == marshal.escapes,
        end.rid == marshal.rid,
        end.calls@ == marshal.replies@.map_values(|reply: PendingReply| wire_form(reply)),
{
    let mut marshal = marshal;
    let holds: u32 = marshal.take_escapes();
    let rid: u64 = marshal.rid;
    let calls = marshal.flush();
    DispatchEnd { holds, rid, calls }
}

/// An owned query closure.
pub type z_owned_closure_query_t = CClosure;

/// A query closure on its way to be consumed.
pub type z_moved_closure_query_t = MovedClosure;

/// Writes a query closure from its parts.
pub fn z_closure_query(
    this_: Option<&mut z_owned_closure_query_t>,
    call: Option<usize>,
    drop: Option<usize>,
    context: usize,
)
    ensures
        this_ matches Some(slot) ==> *final(slot) == (CClosure { context, call, drop }),
{
    build(this_, call, drop, context)
}

/// Drops a query closure that was never declared.
pub fn z_closure_query_drop(closure_: Option<&mut z_moved_closure_query_t>) -> (due: Option<
    DropCall,
>)
    ensures
        match closure_ {
            Some(m) => due == m._this.drop_call() && final(m)._this.is_null(),
            None => due is None,
        },
{
    discard(closure_)
}

/// How a queryable is declared.
#[derive(Clone, Copy, Debug, PartialEq, Eq, Structural)]
pub struct z_queryable_options_t {
    /// Whether the queryable claims to hold all data under its key expression.
    pub complete: bool,
    /// Which origins it takes queries from.
    pub allowed_origin: i32,
}

/// Fills in the default queryable options.
pub fn z_queryable_options_default(this_: Option<&mut z_queryable_options_t>)
    ensures
        this_ matches Some(slot) ==> *final(slot) == (z_queryable_options_t {
            complete: false,
            allowed_origin: ZC_LOCALITY_ANY,
        }),
{
    if let Some(slot) = this_ {
        *slot = z_queryable_options_t { complete: false, allowed_origin: ZC_LOCALITY_ANY };
    }
}

/// What queryable options come to. Null options are the default ones.
pub open spec fn declare_params(options: Option<&z_queryable_options_t>) -> (bool, Locality) {
    match options {
        Some(o) => (o.complete, locality_of(o.allowed_origin)),
        None => (false, Locality::Any),
    }
}

/// What queryable options come to: both fields, from one place.
pub fn queryable_declare_params(options: Option<&z_queryable_options_t>) -> (r: (bool, Locality))
    ensures
        r == declare_params(options),
{
    match options {
        Some(o) => (o.complete, locality_from_c(o.allowed_origin)),
        None => (false, Locality::Any),
    }
}

/// A queryable to be declared on a session.
pub struct QueryableDeclaration {
    pub session: u64,
    pub keyexpr: String,
    pub complete: bool,
    pub allowed_origin: Locality,
    pub closure: CClosure,
}

/// What stands behind a queryable handle.
pub struct QueryableState {
    pub shared: u64,
    pub id: u64,
    pub keyexpr: DeclaredKeyexpr,
}

/// An owned queryable.
pub type z_owned_queryable_t = Owned<QueryableState>;

/// A borrowed queryable: the same slot.
pub type z_loaned_queryable_t = Owned<QueryableState>;

/// A queryable on its way to be consumed.
pub type z_moved_queryable_t = Moved<QueryableState>;

/// Whether `outbound`, asked whether `text` may go on the wire, may answer `ok`.
pub open spec fn outbound_says<O: Fn(&str) -> bool>(outbound: O, text: Seq<char>, ok: bool) -> bool {
    exists|t: &str| t@ == text && #[trigger] call_ensures(outbound, (t,), ok)
}

/// Whether `outbound` may be asked about `text`.
pub open spec fn may_ask<O: Fn(&str) -> bool>(outbound: O, text: Seq<char>) -> bool {
    forall|t: &str| t@ == text ==> #[trigger] call_requires(outbound, (t,))
}

/// Asks whether a text may go on the wire.
pub fn ask_outbound<O: Fn(&str) -> bool>(text: &str, outbound: &O) -> (ok: bool)
    requires
        may_ask(*outbound, text@),
    ensures
        outbound_says(*outbound, text@, ok),
{
    let ok: bool = outbound(text);
    assert(call_ensures(*outbound, (text,), ok));
    ok
}

/// Whether a queryable declaration says these things.
pub open spec fn declares(
    declaration: QueryableDeclaration,
    session: u64,
    text: Seq<char>,
    params: (bool, Locality),
    closure: CClosure,
) -> bool {
    &&& declaration.session == session
    &&& declaration.keyexpr@ == text
    &&& declaration.complete == params.0
    &&& declaration.allowed_origin == params.1
    &&& declaration.closure == closure
}

/// Whether a declared queryable has this id, and its text to borrow.
pub open spec fn is_queryable(
    slot: z_owned_queryable_t,
    session: u64,
    text: Seq<char>,
    id: u64,
) -> bool {
    slot.state matches Some(state) && state.shared == session && state.id == id
        && state.keyexpr.wf() && state.keyexpr.bound && state.keyexpr.text() == text
}

/// Whether `declare`, asked for this queryable, may answer `id`.
pub open spec fn queryable_declare_says<D: FnOnce(QueryableDeclaration) -> u64>(
    declare: D,
    session: u64,
    text: Seq<char>,
    params: (bool, Locality),
    closure: CClosure,
    id: u64,
) -> bool {
    exists|d: QueryableDeclaration|
        declares(d, session, text, params, closure) && #[trigger] call_ensures(declare, (d,), id)
}

/// What declaring a queryable comes to, once the session and the text are known:
/// a text that may not go on the wire is refused and its closure dropped, any
/// other is declared and its closure lives on.
pub open spec fn queryable_declared<
    O: Fn(&str) -> bool,
    D: FnOnce(QueryableDeclaration) -> u64,
>(
    outbound: O,
    declare: D,
    session: u64,
    text: Seq<char>,
    params: (bool, Locality),
    closure: CClosure,
    slot: z_owned_queryable_t,
    r: (ZResult, Option<DropCall>),
) -> bool {
    if r.0 == Z_OK {
        &&& outbound_says(outbound, text, true)
        &&& r.1 is None
        &&& exists|id: u64| #[trigger]
            queryable_declare_says(declare, session, text, params, closure, id) && is_queryable(
                slot,
                session,
                text,
                id,
            )
    } else {
        &&& outbound_says(outbound, text, false)
        &&& r == (Z_EINVAL, closure.drop_call())
        &&& slot.state is None
    }
}

proof fn lemma_queryable_declared<O: Fn(&str) -> bool, D: FnOnce(QueryableDeclaration) -> u64>(
    outbound: O,
    declare: D,
    session: u64,
    text: Seq<char>,
    params: (bool, Locality),
    closure: CClosure,
    slot: z_owned_queryable_t,
    d: QueryableDeclaration,
    id: u64,
)
    requires
        outbound_says(outbound, text, true),
        declares(d, session, text, params, closure),
        call_ensures(declare, (d,), id),
        is_queryable(slot, session, text, id),
    ensures
        queryable_declared(
            outbound,
            declare,
            session,
            text,
            params,
            closure,
            slot,
            (Z_OK, None::<DropCall>),
        ),
{
    assert(queryable_declare_says(declare, session, text, params, closure, id));
}

/// Declares a queryable. The closure is consumed on every path; where nothing is
/// declared, its drop function is due. `outbound` tells which texts may go on the
/// wire, and `declare` makes the session declare.
pub fn z_declare_queryable<O: Fn(&str) -> bool, D: FnOnce(QueryableDeclaration) -> u64>(
    session: Option<&z_loaned_session_t>,
    queryable: Option<&mut z_owned_queryable_t>,
    key_expr: Option<&z_loaned_keyexpr_t>,
    callback: Option<&mut z_moved_closure_query_t>,
    options: Option<&z_queryable_options_t>,
    outbound: &O,
    declare: D,
) -> (r: (ZResult, Option<DropCall>))
    requires
        text_of(key_expr) matches Some(text) ==> may_ask(*outbound, text),
        (queryable, callback, live(session), text_of(key_expr)) matches (
            Some(_),
            Some(moved),
            Some(state),
            Some(text),
        ) ==> forall|d: QueryableDeclaration|
            declares(d, state.shared, text, declare_params(options), moved._this)
                && outbound_says(*outbound, text, true) ==> #[trigger] call_requires(
                declare,
                (d,),
            ),
    ensures
        match (queryable, callback) {
            (Some(slot), Some(moved)) => {
                &&& final(moved)._this.is_null()
                &&& match (live(session), text_of(key_expr)) {
                    (Some(state), Some(text)) => queryable_declared(
                        *outbound,
                        declare,
                        state.shared,
                        text,
                        declare_params(options),
                        moved._this,
                        *final(slot),
                        r,
                    ),
                    _ => {
                        &&& r == (Z_ENULL, moved._this.drop_call())
                        &&& final(slot).state is None
                    },
                }
            },
            (Some(slot), None) => r == (Z_ENULL, None::<DropCall>) && *final(slot) == *slot,
            (None, Some(moved)) => r == (Z_ENULL, None::<DropCall>) && *final(moved) == *moved,
            (None, None) => r == (Z_ENULL, None::<DropCall>),
        },
{
    let (slot, moved) = match (queryable, callback) {
        (Some(slot), Some(moved)) => (slot, moved),
        _ => {
            return (Z_ENULL, None);
        },
    };
    slot.state = None;
    let closure = adopt(moved);
    match (state_of(session), keyexpr_str(key_expr)) {
        (Some(state), Some(text)) => {
            if !ask_outbound(text, outbound) {
                return (Z_EINVAL, closure.dropping());
            }
            let (complete, allowed_origin) = queryable_declare_params(options);
            let declaration = QueryableDeclaration {
                session: state.shared,
                keyexpr: text.to_owned(),
                complete,
                allowed_origin,
                closure,
            };
            let ghost asked = declaration;
            let id: u64 = declare(declaration);
            let mut keyexpr = DeclaredKeyexpr::new(text.to_owned());
            keyexpr.bind();
            slot.state = Some(QueryableState { shared: state.shared, id, keyexpr });
            proof {
                lemma_queryable_declared(
                    *outbound,
                    declare,
                    state.shared,
                    text@,
                    declare_params(options),
                    closure,
                    *slot,
                    asked,
                    id,
                );
            }
            (Z_OK, None)
        },
        _ => (Z_ENULL, closure.dropping()),
    }
}

/// Declares a queryable that the caller never holds: it lives as long as the
/// session, as nothing can retract it sooner.
pub fn z_declare_background_queryable<
    O: Fn(&str) -> bool,
    D: FnOnce(QueryableDeclaration) -> u64,
>(
    session: Option<&z_loaned_session_t>,
    key_expr: Option<&z_loaned_keyexpr_t>,
    callback: Option<&mut z_moved_closure_query_t>,
    options: Option<&z_queryable_options_t>,
    outbound: &O,
    declare: D,
) -> (r: (ZResult, Option<DropCall>))
    requires
        text_of(key_expr) matches Some(text) ==> may_ask(*outbound, text),
        (callback, live(session), text_of(key_expr)) matches (
            Some(moved),
            Some(state),
            Some(text),
        ) ==> forall|d: QueryableDeclaration|
            declares(d, state.shared, text, declare_params(options), moved._this)
                && outbound_says(*outbound, text, true) ==> #[trigger] call_requires(
                declare,
                (d,),
            ),
    ensures
        match callback {
            Some(moved) => {
                &&& final(moved)._this.is_null()
                &&& match (live(session), text_of(key_expr)) {
                    (Some(state), Some(text)) => exists|slot: z_owned_queryable_t| #[trigger]
                        queryable_declared(
                            *outbound,
                            declare,
                            state.shared,
                            text,
                            declare_params(options),
                            moved._this,
                            slot,
                            r,
                        ),
                    _ => r == (Z_ENULL, moved._this.drop_call()),
                }
            },
            None => r == (Z_ENULL, None::<DropCall>),
        },
{
    let mut sink: z_owned_queryable_t = Owned::null_value();
    z_declare_queryable(session, Some(&mut sink), key_expr, callback, options, outbound, declare)
}

/// The identity of a queryable, which its session gives by where the handle is. A
/// gravestone has none.
pub fn z_queryable_id<F: FnOnce(u64, usize) -> z_entity_global_id_t>(
    queryable: Option<&z_loaned_queryable_t>,
    address: usize,
    for_entity: F,
) -> (id: z_entity_global_id_t)
    requires
        live(queryable) matches Some(state) ==> call_requires(
            for_entity,
            (state.shared, address),
        ),
    ensures
        match live(queryable) {
            Some(state) => call_ensures(for_entity, (state.shared, address), id),
            None => id.is_empty(),
        },
{
    match state_of(queryable) {
        Some(state) => for_entity(state.shared, address),
        None => z_entity_global_id_t::empty(),
    }
}

/// The key expression a queryable was declared under.
pub fn z_queryable_keyexpr(queryable: Option<&z_loaned_queryable_t>) -> (loaned: Option<
    &z_loaned_keyexpr_t,
>)
    ensures
        match loaned {
            Some(loaned) => live(queryable) matches Some(state) && state.keyexpr.bound && *loaned
                == state.keyexpr.state,
            None => live(queryable) is None || !live(queryable)->0.keyexpr.bound,
        },
{
    match state_of(queryable) {
        Some(state) => state.keyexpr.as_loaned(),
        None => None,
    }
}

/// A queryable to be retracted from its session.
#[derive(Clone, Copy, Debug, PartialEq, Eq, Structural)]
pub struct QueryableRetraction {
    pub session: u64,
    pub id: u64,
}

/// The retraction that giving up a queryable calls for.
pub open spec fn retraction_of(state: Option<QueryableState>) -> Option<QueryableRetraction> {
    match state {
        Some(state) => Some(QueryableRetraction { session: state.shared, id: state.id }),
        None => None,
    }
}

/// Undeclares a queryable: the retraction is due where it was live. A second
/// undeclaration of the same slot finds nothing.
pub fn z_undeclare_queryable(this_: Option<&mut z_moved_queryable_t>) -> (r: (
    ZResult,
    Option<QueryableRetraction>,
))
    ensures
        r.0 == Z_OK,
        match this_ {
            Some(moved) => {
                &&& final(moved)._this.state is None
                &&& r.1 == retraction_of(moved._this.state)
            },
            None => r.1 is None,
        },
{
    match take(this_) {
        Some(state) => (Z_OK, Some(QueryableRetraction { session: state.shared, id: state.id })),
        None => (Z_OK, None),
    }
}

/// Drops a queryable, which undeclares it.
pub fn z_queryable_drop(this_: Option<&mut z_moved_queryable_t>) -> (due: Option<
    QueryableRetraction,
>)
    ensures
        match this_ {
            Some(moved) => {
                &&& final(moved)._this.state is None
                &&& due == retraction_of(moved._this.state)
            },
            None => due is None,
        },
{
    z_undeclare_queryable(this_).1
}

/// Borrows a queryable.
pub fn z_queryable_loan(this_: Option<&z_owned_queryable_t>) -> (loaned: Option<
    &z_loaned_queryable_t,
>)
    ensures
        loaned == this_,
{
    this_
}

/// Whether a queryable is live.
pub fn z_internal_queryable_check(this_: Option<&z_owned_queryable_t>) -> (r: bool)
    ensures
        r == (live(this_) is Some),
{
    is_live(this_)
}

/// Makes a queryable the gravestone.
pub fn z_internal_queryable_null(this_: Option<&mut z_owned_queryable_t>)
    ensures
        this_ matches Some(slot) ==> final(slot).state is None,
{
    gravestone(this_)
}

/// A query's key expression.
pub fn z_query_keyexpr(this_: Option<&z_loaned_query_t>) -> (loaned: Option<&z_loaned_keyexpr_t>)
    ensures
        match loaned {
            Some(loaned) => this_ matches Some(m) && m.bound && *loaned == m.keyexpr,
            None => this_ is None || !this_->0.bound,
        },
{
    match this_ {
        Some(m) if m.bound => Some(&m.keyexpr),
        _ => None,
    }
}

/// Replies are taken under any key.
pub const Z_REPLY_KEYEXPR_ANY: u32 = 0;

/// Replies are taken under keys that match the query. The default.
pub const Z_REPLY_KEYEXPR_MATCHING_QUERY: u32 = 1;

/// Which keys a query takes replies under. A dead query takes the fewer.
pub fn z_query_accepts_replies(this_: Option<&z_loaned_query_t>) -> (accepts: u32)
    ensures
        accepts == (match this_ {
            Some(m) if m.anyke => Z_REPLY_KEYEXPR_ANY,
            _ => Z_REPLY_KEYEXPR_MATCHING_QUERY,
        }),
{
    match this_ {
        Some(m) if m.anyke => Z_REPLY_KEYEXPR_ANY,
        _ => Z_REPLY_KEYEXPR_MATCHING_QUERY,
    }
}

/// Who asks, or nothing where the query does not say.
pub fn z_query_source_info(this_: Option<&z_loaned_query_t>) -> (info: Option<&z_source_info_t>)
    ensures
        match info {
            Some(info) => this_ matches Some(m) && m.source_info == Some(*info),
            None => this_ is None || this_->0.source_info is None,
        },
{
    match this_ {
        Some(m) => m.source_info.as_ref(),
        None => None,
    }
}

/// Views a query's parameters, byte for byte. A dead query leaves the gravestone.
pub fn z_query_parameters<'a>(
    this_: Option<&'a z_loaned_query_t>,
    parameters: Option<&mut z_view_string_t<'a>>,
)
    ensures
        parameters matches Some(out) ==> match this_ {
            Some(m) => *final(out) is Viewed && final(out).bytes() == Some(m.parameters@),
            None => *final(out) is Null,
        },
{
    if let Some(out) = parameters {
        *out = match this_ {
            Some(m) => SliceRepr::Viewed(m.parameters.as_slice()),
            None => SliceRepr::Null,
        };
    }
}

/// A query's payload, or nothing where it carries none.
pub fn z_query_payload(this_: Option<&z_loaned_query_t>) -> (loaned: Option<&z_loaned_bytes_t>)
    ensures
        match loaned {
            Some(loaned) => this_ matches Some(m) && m.bound && m.payload == Some(*loaned),
            None => this_ is None || !this_->0.bound || this_->0.payload is None,
        },
{
    match this_ {
        Some(m) if m.bound => m.payload.as_ref(),
        _ => None,
    }
}

/// A query's attachment, or nothing where it carries none.
pub fn z_query_attachment(this_: Option<&z_loaned_query_t>) -> (loaned: Option<&z_loaned_bytes_t>)
    ensures
        match loaned {
            Some(loaned) => this_ matches Some(m) && m.bound && m.attachment == Some(*loaned),
            None => this_ is None || !this_->0.bound || this_->0.attachment is None,
        },
{
    match this_ {
        Some(m) if m.bound => m.attachment.as_ref(),
        _ => None,
    }
}

/// A query's encoding. A query that was given none has the default one.
pub fn z_query_encoding(this_: Option<&z_loaned_query_t>) -> (loaned: Option<&EncodingHint>)
    ensures
        match loaned {
            Some(loaned) => this_ matches Some(m) && m.bound && *loaned == m.encoding,
            None => this_ is None || !this_->0.bound,
        },
{
    match this_ {
        Some(m) if m.bound => Some(&m.encoding),
        _ => None,
    }
}

/// A query's payload, to change it, or nothing where it carries none.
pub fn z_query_payload_mut(this_: Option<&mut z_loaned_query_t>) -> (loaned: Option<
    &mut z_loaned_bytes_t,
>)
    ensures
        match this_ {
            Some(m) => if m.bound && m.payload is Some {
                loaned matches Some(out) && m.payload == Some(*out) && *final(m) == (QueryMarshal {
                    payload: Some(*final(out)),
                    ..*m
                })
            } else {
                loaned is None && *final(m) == *m
            },
            None => loaned is None,
        },
{
    match this_ {
        Some(m) => {
            if m.bound {
                match &mut m.payload {
                    Some(slot) => Some(slot),
                    None => None,
                }
            } else {
                None
            }
        },
        None => None,
    }
}

/// A query's attachment, to change it, or nothing where it carries none.
pub fn z_query_attachment_mut(this_: Option<&mut z_loaned_query_t>) -> (loaned: Option<
    &mut z_loaned_bytes_t,
>)
    ensures
        match this_ {
            Some(m) => if m.bound && m.attachment is Some {
                loaned matches Some(out) && m.attachment == Some(*out) && *final(m) == (
                QueryMarshal { attachment: Some(*final(out)), ..*m })
            } else {
                loaned is None && *final(m) == *m
            },
            None => loaned is None,
        },
{
    match this_ {
        Some(m) => {
            if m.bound {
                match &mut m.attachment {
                    Some(slot) => Some(slot),
                    None => None,
                }
            } else {
                None
            }
        },
        None => None,
    }
}

/// How a query is answered with a value. Congestion control, priority and the
/// express flag are taken and not used.
pub struct z_query_reply_options_t {
    /// The value's encoding, consumed.
    pub encoding: z_moved_encoding_t,
    pub congestion_control: i32,
    pub priority: i32,
    pub is_express: bool,
    pub timestamp: Option<z_timestamp_t>,
    pub source_info: Option<z_source_info_t>,
    /// The reply's attachment, consumed.
    pub attachment: z_moved_bytes_t,
}

/// How a query is answered with a deletion.
pub struct z_query_reply_del_options_t {
    pub congestion_control: i32,
    pub priority: i32,
    pub is_express: bool,
    pub timestamp: Option<z_timestamp_t>,
    pub source_info: Option<z_source_info_t>,
    /// The reply's attachment, consumed.
    pub attachment: z_moved_bytes_t,
}

/// How a query is answered with an error.
pub struct z_query_reply_err_options_t {
    /// The error's encoding, consumed.
    pub encoding: z_moved_encoding_t,
}

/// The default reply options.
pub open spec fn default_reply_options() -> z_query_reply_options_t {
    z_query_reply_options_t {
        encoding: Moved { _this: Owned { state: None } },
        congestion_control: 0,
        priority: 5,
        is_express: false,
        timestamp: None,
        source_info: None,
        attachment: Moved { _this: Owned { state: None } },
    }
}

/// Fills in the default reply options.
pub fn z_query_reply_options_default(this_: Option<&mut z_query_reply_options_t>)
    ensures
        this_ matches Some(slot) ==> *final(slot) == default_reply_options(),
{
    if let Some(slot) = this_ {
        *slot = z_query_reply_options_t {
            encoding: Moved { _this: Owned { state: None } },
            congestion_control: 0,
            priority: 5,
            is_express: false,
            timestamp: None,
            source_info: None,
            attachment: Moved { _this: Owned { state: None } },
        };
    }
}

/// Fills in the default options of a deletion: those of a value, as far as it has
/// them.
pub fn z_query_reply_del_options_default(this_: Option<&mut z_query_reply_del_options_t>)
    ensures
        this_ matches Some(slot) ==> *final(slot) == (z_query_reply_del_options_t {
            congestion_control: default_reply_options().congestion_control,
            priority: default_reply_options().priority,
            is_express: default_reply_options().is_express,
            timestamp: None,
            source_info: None,
            attachment: Moved { _this: Owned { state: None } },
        }),
{
    if let Some(slot) = this_ {
        *slot = z_query_reply_del_options_t {
            congestion_control: 0,
            priority: 5,
            is_express: false,
            timestamp: None,
            source_info: None,
            attachment: Moved { _this: Owned { state: None } },
        };
    }
}

/// Fills in the default options of an error.
pub fn z_query_reply_err_options_default(this_: Option<&mut z_query_reply_err_options_t>)
    ensures
        this_ matches Some(slot) ==> *final(slot) == (z_query_reply_err_options_t {
            encoding: Moved { _this: Owned { state: None } },
        }),
{
    if let Some(slot) = this_ {
        *slot = z_query_reply_err_options_t { encoding: Moved { _this: Owned { state: None } } };
    }
}

/// What a reply takes out of its options.
pub struct ReplyParts {
    pub encoding: Option<EncodingHint>,
    pub attachment: Option<Vec<u8>>,
    pub timestamp: Option<z_timestamp_t>,
    pub source_info: Option<z_source_info_t>,
}

/// What a reply takes out of its options. Null options have nothing.
pub open spec fn reply_parts(options: Option<z_query_reply_options_t>) -> ReplyParts {
    match options {
        Some(o) => ReplyParts {
            encoding: o.encoding._this.state,
            attachment: payload_of(o.attachment._this),
            timestamp: o.timestamp,
            source_info: o.source_info,
        },
        None => ReplyParts { encoding: None, attachment: None, timestamp: None, source_info: None },
    }
}

/// What a deletion takes out of its options.
pub open spec fn del_parts(options: Option<z_query_reply_del_options_t>) -> ReplyParts {
    match options {
        Some(o) => ReplyParts {
            encoding: None,
            attachment: payload_of(o.attachment._this),
            timestamp: o.timestamp,
            source_info: o.source_info,
        },
        None => ReplyParts { encoding: None, attachment: None, timestamp: None, source_info: None },
    }
}

/// Options with what they owned consumed.
pub open spec fn consumed_reply_options(o: z_query_reply_options_t) -> z_query_reply_options_t {
    z_query_reply_options_t {
        encoding: Moved { _this: Owned { state: None } },
        attachment: Moved { _this: Owned { state: None } },
        ..o
    }
}

/// Deletion options with what they owned consumed.
pub open spec fn consumed_del_options(
    o: z_query_reply_del_options_t,
) -> z_query_reply_del_options_t {
    z_query_reply_del_options_t { attachment: Moved { _this: Owned { state: None } }, ..o }
}

/// Whether a reply is a value under `text` made of these parts.
pub open spec fn is_put(
    reply: PendingReply,
    text: Seq<char>,
    payload: Vec<u8>,
    parts: ReplyParts,
) -> bool {
    &&& reply is Put
    &&& reply->Put_keyexpr@ == text
    &&& reply->Put_payload == payload
    &&& reply->Put_encoding == parts.encoding
    &&& reply->Put_attachment == parts.attachment
    &&& reply->Put_timestamp == parts.timestamp
    &&& reply->Put_source_info == parts.source_info
}

/// Whether a reply is a deletion under `text` made of these parts.
pub open spec fn is_del(reply: PendingReply, text: Seq<char>, parts: ReplyParts) -> bool {
    &&& reply is Del
    &&& reply->Del_keyexpr@ == text
    &&& reply->Del_attachment == parts.attachment
    &&& reply->Del_timestamp == parts.timestamp
    &&& reply->Del_source_info == parts.source_info
}

/// What became of an answer: its code, and a reply to be sent now where the
/// query has escaped.
pub struct ReplyOutcome {
    pub code: ZResult,
    pub due: Option<DeferredReply>,
}

/// Whether a query that was left as it is turned the answer down with `code`.
pub open spec fn turned_away(
    before: QueryMarshal,
    after: QueryMarshal,
    outcome: ReplyOutcome,
    code: ZResult,
) -> bool {
    &&& outcome.code == code
    &&& outcome.due is None
    &&& after == before
}

/// Whether a value made of these parts was recorded.
pub open spec fn put_recorded(
    before: QueryMarshal,
    after: QueryMarshal,
    text: Seq<char>,
    payload: Vec<u8>,
    parts: ReplyParts,
    due: Option<DeferredReply>,
) -> bool {
    exists|reply: PendingReply| #[trigger]
        is_put(reply, text, payload, parts) && recorded(before, after, reply, due)
}

/// Whether a deletion made of these parts was recorded.
pub open spec fn del_recorded(
    before: QueryMarshal,
    after: QueryMarshal,
    text: Seq<char>,
    parts: ReplyParts,
    due: Option<DeferredReply>,
) -> bool {
    exists|reply: PendingReply| #[trigger]
        is_del(reply, text, parts) && recorded(before, after, reply, due)
}

/// What answering a live query with a value comes to.
pub open spec fn put_answered<M: Fn(&Vec<String>, &Vec<String>) -> bool>(
    intersects: M,
    before: QueryMarshal,
    after: QueryMarshal,
    text: Option<Seq<char>>,
    payload: Option<Vec<u8>>,
    parts: ReplyParts,
    outcome: ReplyOutcome,
) -> bool {
    match (text, payload) {
        (Some(text), Some(payload)) => if outcome.code == Z_OK {
            &&& covered(intersects, before.text(), text, before.anyke, true)
            &&& put_recorded(before, after, text, payload, parts, outcome.due)
        } else {
            &&& covered(intersects, before.text(), text, before.anyke, false)
            &&& turned_away(before, after, outcome, Z_EINVAL)
        },
        _ => turned_away(before, after, outcome, Z_ENULL),
    }
}

proof fn lemma_put_answered<M: Fn(&Vec<String>, &Vec<String>) -> bool>(
    intersects: M,
    before: QueryMarshal,
    after: QueryMarshal,
    text: Seq<char>,
    payload: Vec<u8>,
    parts: ReplyParts,
    outcome: ReplyOutcome,
    reply: PendingReply,
)
    requires
        outcome.code == Z_OK,
        covered(intersects, before.text(), text, before.anyke, true),
        is_put(reply, text, payload, parts),
        recorded(before, after, reply, outcome.due),
    ensures
        put_answered(intersects, before, after, Some(text), Some(payload), parts, outcome),
{
    assert(put_recorded(before, after, text, payload, parts, outcome.due));
}

fn take_reply_parts(options: Option<&mut z_query_reply_options_t>) -> (parts: ReplyParts)
    ensures
        match options {
            Some(o) => parts == reply_parts(Some(*o)) && *final(o) == consumed_reply_options(*o),
            None => parts == reply_parts(None),
        },
{
    match options {
        Some(o) => {
            let encoding = take_moved_encoding(&mut o.encoding);
            let attachment = take_payload(Some(&mut o.attachment));
            ReplyParts { encoding, attachment, timestamp: o.timestamp, source_info: o.source_info }
        },
        None => ReplyParts { encoding: None, attachment: None, timestamp: None, source_info: None },
    }
}

fn take_del_parts(options: Option<&mut z_query_reply_del_options_t>) -> (parts: ReplyParts)
    ensures
        match options {
            Some(o) => parts == del_parts(Some(*o)) && *final(o) == consumed_del_options(*o),
            None => parts == del_parts(None),
        },
{
    match options {
        Some(o) => {
            let attachment = take_payload(Some(&mut o.attachment));
            ReplyParts {
                encoding: None,
                attachment,
                timestamp: o.timestamp,
                source_info: o.source_info,
            }
        },
        None => ReplyParts { encoding: None, attachment: None, timestamp: None, source_info: None },
    }
}

fn answer_put<M: Fn(&Vec<String>, &Vec<String>) -> bool>(
    marshal: &mut QueryMarshal,
    key_expr: Option<&z_loaned_keyexpr_t>,
    payload: Option<Vec<u8>>,
    parts: ReplyParts,
    intersects: &M,
) -> (outcome: ReplyOutcome)
    requires
        old(marshal).wf(),
        forall|a: &Vec<String>, b: &Vec<String>| call_requires(intersects, (a, b)),
    ensures
        final(marshal).wf(),
        put_answered(
            *intersects,
            *old(marshal),
            *final(marshal),
            text_of(key_expr),
            payload,
            parts,
            outcome,
        ),
{
    let text = match keyexpr_str(key_expr) {
        Some(text) => text,
        None => {
            return ReplyOutcome { code: Z_ENULL, due: None };
        },
    };
    let payload = match payload {
        Some(payload) => payload,
        None => {
            return ReplyOutcome { code: Z_ENULL, due: None };
        },
    };
    let ok: bool = match &marshal.keyexpr.state {
        Some(state) => reply_keyexpr_is_covered(
            state.keyexpr.as_str(),
            text,
            marshal.anyke,
            intersects,
        ),
        None => false,
    };
    if !ok {
        return ReplyOutcome { code: Z_EINVAL, due: None };
    }
    let ghost before = *marshal;
    let ghost given = (payload, parts);
    let reply = PendingReply::Put {
        keyexpr: text.to_owned(),
        payload,
        encoding: parts.encoding,
        attachment: parts.attachment,
        timestamp: parts.timestamp,
        source_info: parts.source_info,
    };
    let ghost asked = reply;
    let due = marshal.push_reply(reply);
    let outcome = ReplyOutcome { code: Z_OK, due };
    proof {
        lemma_put_answered(
            *intersects,
            before,
            *marshal,
            text@,
            given.0,
            given.1,
            outcome,
            asked,
        );
    }
    outcome
}

/// Answers a query with a value. The payload and what the options own are
/// consumed on every path. A key that the query does not cover is refused.
pub fn z_query_reply<M: Fn(&Vec<String>, &Vec<String>) -> bool>(
    this_: Option<&mut z_loaned_query_t>,
    key_expr: Option<&z_loaned_keyexpr_t>,
    payload: Option<&mut z_moved_bytes_t>,
    options: Option<&mut z_query_reply_options_t>,
    intersects: &M,
) -> (outcome: ReplyOutcome)
    requires
        this_ matches Some(m) ==> m.wf(),
        forall|a: &Vec<String>, b: &Vec<String>| call_requires(intersects, (a, b)),
    ensures
        payload matches Some(moved) ==> final(moved)._this.state is None,
        options matches Some(o) ==> *final(o) == consumed_reply_options(*o),
        match this_ {
            Some(m) => {
                &&& final(m).wf()
                &&& put_answered(
                    *intersects,
                    *m,
                    *final(m),
                    text_of(key_expr),
                    match payload {
                        Some(moved) => payload_of(moved._this),
                        None => None,
                    },
                    match options {
                        Some(o) => reply_parts(Some(*o)),
                        None => reply_parts(None),
                    },
                    outcome,
                )
            },
            None => outcome.code == Z_ENULL && outcome.due is None,
        },
{
    let taken = take_payload(payload);
    let parts = take_reply_parts(options);
    match this_ {
        None => ReplyOutcome { code: Z_ENULL, due: None },
        Some(marshal) => answer_put(marshal, key_expr, taken, parts, intersects),
    }
}

/// What answering a live query with a deletion comes to.
pub open spec fn del_answered<M: Fn(&Vec<String>, &Vec<String>) -> bool>(
    intersects: M,
    before: QueryMarshal,
    after: QueryMarshal,
    text: Option<Seq<char>>,
    parts: ReplyParts,
    outcome: ReplyOutcome,
) -> bool {
    match text {
        Some(text) => if outcome.code == Z_OK {
            &&& covered(intersects, before.text(), text, before.anyke, true)
            &&& del_recorded(before, after, text, parts, outcome.due)
        } else {
            &&& covered(intersects, before.text(), text, before.anyke, false)
            &&& turned_away(before, after, outcome, Z_EINVAL)
        },
        None => turned_away(before, after, outcome, Z_ENULL),
    }
}

proof fn lemma_del_answered<M: Fn(&Vec<String>, &Vec<String>) -> bool>(
    intersects: M,
    before: QueryMarshal,
    after: QueryMarshal,
    text: Seq<char>,
    parts: ReplyParts,
    outcome: ReplyOutcome,
    reply: PendingReply,
)
    requires
        outcome.code == Z_OK,
        covered(intersects, before.text(), text, before.anyke, true),
        is_del(reply, text, parts),
        recorded(before, after, reply, outcome.due),
    ensures
        del_answered(intersects, before, after, Some(text), parts, outcome),
{
    assert(del_recorded(before, after, text, parts, outcome.due));
}

fn answer_del<M: Fn(&Vec<String>, &Vec<String>) -> bool>(
    marshal: &mut QueryMarshal,
    key_expr: Option<&z_loaned_keyexpr_t>,
    parts: ReplyParts,
    intersects: &M,
) -> (outcome: ReplyOutcome)
    requires
        old(marshal).wf(),
        forall|a: &Vec<String>, b: &Vec<String>| call_requires(intersects, (a, b)),
    ensures
        final(marshal).wf(),
        del_answered(
            *intersects,
            *old(marshal),
            *final(marshal),
            text_of(key_expr),
            parts,
            outcome,
        ),
{
    let text = match keyexpr_str(key_expr) {
        Some(text) => text,
        None => {
            return ReplyOutcome { code: Z_ENULL, due: None };
        },
    };
    let ok: bool = match &marshal.keyexpr.state {
        Some(state) => reply_keyexpr_is_covered(
            state.keyexpr.as_str(),
            text,
            marshal.anyke,
            intersects,
        ),
        None => false,
    };
    if !ok {
        return ReplyOutcome { code: Z_EINVAL, due: None };
    }
    let ghost before = *marshal;
    let ghost given = parts;
    let reply = PendingReply::Del {
        keyexpr: text.to_owned(),
        attachment: parts.attachment,
        timestamp: parts.timestamp,
        source_info: parts.source_info,
    };
    let ghost asked = reply;
    let due = marshal.push_reply(reply);
    let outcome = ReplyOutcome { code: Z_OK, due };
    proof {
        lemma_del_answered(*intersects, before, *marshal, text@, given, outcome, asked);
    }
    outcome
}

/// Answers a query with a deletion, by the same rules as a value.
pub fn z_query_reply_del<M: Fn(&Vec<String>, &Vec<String>) -> bool>(
    this_: Option<&mut z_loaned_query_t>,
    key_expr: Option<&z_loaned_keyexpr_t>,
    options: Option<&mut z_query_reply_del_options_t>,
    intersects: &M,
) -> (outcome: ReplyOutcome)
    requires
        this_ matches Some(m) ==> m.wf(),
        forall|a: &Vec<String>, b: &Vec<String>| call_requires(intersects, (a, b)),
    ensures
        options matches Some(o) ==> *final(o) == consumed_del_options(*o),
        match this_ {
            Some(m) => {
                &&& final(m).wf()
                &&& del_answered(
                    *intersects,
                    *m,
                    *final(m),
                    text_of(key_expr),
                    match options {
                        Some(o) => del_parts(Some(*o)),
                        None => del_parts(None),
                    },
                    outcome,
                )
            },
            None => outcome.code == Z_ENULL && outcome.due is None,
        },
{
    let parts = take_del_parts(options);
    match this_ {
        None => ReplyOutcome { code: Z_ENULL, due: None },
        Some(marshal) => answer_del(marshal, key_expr, parts, intersects),
    }
}

/// Answers a query with an error. It has no key, so there is none to be covered.
pub fn z_query_reply_err(
    this_: Option<&mut z_loaned_query_t>,
    payload: Option<&mut z_moved_bytes_t>,
    options: Option<&mut z_query_reply_err_options_t>,
) -> (outcome: ReplyOutcome)
    requires
        this_ matches Some(m) ==> m.wf(),
    ensures
        payload matches Some(moved) ==> final(moved)._this.state is None,
        options matches Some(o) ==> final(o).encoding._this.state is None,
        match this_ {
            Some(m) => {
                &&& final(m).wf()
                &&& match payload {
                    Some(moved) if moved._this.state is Some => {
                        &&& outcome.code == Z_OK
                        &&& recorded(
                            *m,
                            *final(m),
                            PendingReply::Fault {
                                payload: payload_of(moved._this)->0,
                                encoding: match options {
                                    Some(o) => o.encoding._this.state,
                                    None => None,
                                },
                            },
                            outcome.due,
                        )
                    },
                    _ => turned_away(*m, *final(m), outcome, Z_ENULL),
                }
            },
            None => outcome.code == Z_ENULL && outcome.due is None,
        },
{
    let taken = take_payload(payload);
    let encoding = match options {
        Some(o) => take_moved_encoding(&mut o.encoding),
        None => None,
    };
    match (this_, taken) {
        (Some(marshal), Some(payload)) => {
            let due = marshal.push_reply(PendingReply::Fault { payload, encoding });
            ReplyOutcome { code: Z_OK, due }
        },
        _ => ReplyOutcome { code: Z_ENULL, due: None },
    }
}

/// Mutably borrows an owned query.
pub fn z_query_loan_mut(this_: Option<&mut z_owned_query_t>) -> (loaned: Option<
    &mut z_loaned_query_t,
>)
    ensures
        match this_ {
            Some(slot) => match slot.state {
                Some(query) => loaned matches Some(out) && *out == query && *final(slot) == (Owned {
                    state: Some(*final(out)),
                }),
                None => loaned is None && *final(slot) == *slot,
            },
            None => loaned is None,
        },
{
    match this_ {
        Some(slot) => match &mut slot.state {
            Some(query) => Some(query),
            None => None,
        },
        None => None,
    }
}

/// Borrows an owned query.
pub fn z_query_loan(this_: Option<&z_owned_query_t>) -> (loaned: Option<&z_loaned_query_t>)
    ensures
        match loaned {
            Some(m) => live(this_) == Some(*m),
            None => live(this_) is None,
        },
{
    state_of(this_)
}

/// Copies a borrowed query into an owned one. It is an escape, as the copy can be
/// answered: it counts as one, and a query that cannot escape leaves a gravestone.
pub fn z_query_clone(dst: Option<&mut z_owned_query_t>, this_: Option<&mut z_loaned_query_t>)
    requires
        this_ matches Some(m) ==> m.wf() && m.escapes < u32::MAX,
    ensures
        match (dst, this_) {
            (Some(slot), Some(m)) => final(m).wf() && has_escaped(
                *m,
                *final(m),
                final(slot).state,
            ),
            (Some(slot), None) => final(slot).state is None,
            (None, Some(m)) => *final(m) == *m,
            (None, None) => true,
        },
{
    if let Some(slot) = dst {
        slot.state = escape_query(this_);
    }
}

/// Takes ownership of a mutably borrowed query: a copy, by the same escape, as
/// the borrowed one still has replies to flush.
pub fn z_query_take_from_loaned(
    dst: Option<&mut z_owned_query_t>,
    src: Option<&mut z_loaned_query_t>,
)
    requires
        src matches Some(m) ==> m.wf() && m.escapes < u32::MAX,
    ensures
        match (dst, src) {
            (Some(slot), Some(m)) => final(m).wf() && has_escaped(
                *m,
                *final(m),
                final(slot).state,
            ),
            (Some(slot), None) => final(slot).state is None,
            (None, Some(m)) => *final(m) == *m,
            (None, None) => true,
        },
{
    z_query_clone(dst, src)
}

/// Whether an owned query is live.
pub fn z_internal_query_check(this_: Option<&z_owned_query_t>) -> (r: bool)
    ensures
        r == (live(this_) is Some),
{
    is_live(this_)
}

/// Makes an owned query the gravestone.
pub fn z_internal_query_null(this_: Option<&mut z_owned_query_t>)
    ensures
        this_ matches Some(slot) ==> final(slot).state is None,
{
    gravestone(this_)
}

/// Drops an owned query. An escaped one gives up its hold on the final response.
pub fn z_query_drop(this_: Option<&mut z_moved_query_t>) -> (due: Option<FinalRelease>)
    ensures
        match this_ {
            Some(moved) => {
                &&& final(moved)._this.state is None
                &&& due == (match moved._this.state {
                    Some(query) => release_of(query),
                    None => None,
                })
            },
            None => due is None,
        },
{
    match take(this_) {
        Some(query) => match query.deferred {
            Some(responder) => Some(
                FinalRelease { session: responder.session, rid: responder.rid },
            ),
            None => None,
        },
        None => None,
    }
}

/// A reply reaches the wire in one form, whether the query answers at once or has
/// escaped: what an escaped query sends now is what any other query flushes as
/// its last reply.
pub proof fn lemma_deferred_and_immediate_replies_agree(
    at_once: QueryMarshal,
    at_once_after: QueryMarshal,
    escaped: QueryMarshal,
    escaped_after: QueryMarshal,
    reply: PendingReply,
    due: Option<DeferredReply>,
)
    requires
        at_once.deferred is None,
        escaped.deferred is Some,
        recorded(at_once, at_once_after, reply, None),
        recorded(escaped, escaped_after, reply, due),
    ensures
        due matches Some(sent) && sent.call == at_once_after.replies@.map_values(
            |reply: PendingReply| wire_form(reply),
        ).last(),
        escaped_after.replies@ == escaped.replies@,
{
}

} // verus!
