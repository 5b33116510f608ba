//! Laws of slots, closures and what travels beside a payload.

use vstd::prelude::*;

use crate::bytes::copy_bytes;
use crate::bytes::payload_of;
use crate::bytes::take_payload;
use crate::bytes::z_moved_bytes_t;
use crate::bytes::z_owned_bytes_t;
use crate::closure::adopt;
use crate::closure::discard;
use crate::closure::holds_call;
use crate::closure::invoke;
use crate::closure::CClosure;
use crate::closure::DropCall;
use crate::closure::Invocation;
use crate::closure::MovedClosure;
use crate::handle::is_live;
use crate::handle::live;
use crate::handle::state_of;
use crate::handle::take;
use crate::handle::Moved;
use crate::handle::Owned;
use crate::keyexpr::characters;
use crate::keyexpr::holds_text;
use crate::keyexpr::keyexpr_mapping;
use crate::keyexpr::keyexpr_str;
use crate::keyexpr::text_of;
use crate::keyexpr::z_loaned_keyexpr_t;
use crate::keyexpr::KeyexprState;
use crate::meta::copy_hint;
use crate::meta::copy_run;
use crate::meta::moved_encoding_hint;
use crate::meta::run_of;
use crate::meta::same_hint;
use crate::meta::take_moved_encoding;
use crate::meta::z_entity_global_id_t;
use crate::meta::z_moved_encoding_t;
use crate::meta::EncodingHint;
use crate::qos::Locality;
use crate::qos::PublishOptions;

verus! {

/// A slot is live exactly while it holds a state, and what is read through it is
/// that state. A null pointer is never live.
pub proof fn lemma_a_slot_is_live_while_it_holds_a_state<T>(
    this_: Option<&Owned<T>>,
    check: bool,
    state: Option<&T>,
)
    requires
        call_ensures(is_live::<T>, (this_,), check),
        call_ensures(state_of::<T>, (this_,), state),
    ensures
        check == (this_ is Some && this_->0.state is Some),
        live(this_) is Some == check,
        check ==> live(this_) == this_->0.state,
        state is Some == check,
        check ==> *state->0 == this_->0.state->0,
{
}

/// What is taken out of a moved slot was in it, and taking it again finds nothing.
pub proof fn lemma_a_moved_slot_is_taken_once<T>(
    moved: &mut Moved<T>,
    again: &mut Moved<T>,
    first: Option<T>,
    second: Option<T>,
)
    requires
        call_ensures(take::<T>, (Some(moved),), first),
        *again == *final(moved),
        call_ensures(take::<T>, (Some(again),), second),
    ensures
        first == old(moved)._this.state,
        final(moved)._this.state is None,
        second is None,
{
}

/// Invoking a closure calls its function and dropping it calls its drop function,
/// each with the closure's own context, where it has that function.
pub proof fn lemma_a_closure_is_called_with_its_context(
    closure: CClosure,
    call: Option<Invocation>,
    nullable: Option<Invocation>,
    drop: Option<DropCall>,
    held: bool,
)
    requires
        call_ensures(CClosure::invoke, (&closure,), call),
        call_ensures(invoke, (Some(&closure),), nullable),
        call_ensures(CClosure::dropping, (&closure,), drop),
        call_ensures(holds_call, (Some(&closure),), held),
    ensures
        nullable == call,
        call is Some == closure.call is Some,
        held == closure.call is Some,
        call matches Some(due) ==> Some(due.call) == closure.call && due.context == closure.context,
        drop is Some == closure.drop is Some,
        drop matches Some(due) ==> Some(due.drop) == closure.drop && due.context == closure.context,
        call == closure.invocation(),
        drop == closure.drop_call(),
{
}

/// A moved closure is adopted whole, and nothing can be called through what is
/// left behind.
pub proof fn lemma_a_moved_closure_is_adopted_whole(
    moved: &mut MovedClosure,
    closure: CClosure,
    dropped: &mut MovedClosure,
    due: Option<DropCall>,
)
    requires
        call_ensures(adopt, (moved,), closure),
        call_ensures(discard, (Some(dropped),), due),
    ensures
        closure.context == old(moved)._this.context,
        closure.call == old(moved)._this.call,
        closure.drop == old(moved)._this.drop,
        final(moved)._this.call is None && final(moved)._this.drop is None,
        final(moved)._this.context == 0,
        due is Some == old(dropped)._this.drop is Some,
        due matches Some(d) ==> Some(d.drop) == old(dropped)._this.drop && d.context == old(dropped)._this.context,
        final(dropped)._this.call is None && final(dropped)._this.drop is None,
        final(dropped)._this.context == 0,
        final(moved)._this.is_null() && final(dropped)._this.is_null(),
{
}

/// A closure is the gravestone exactly where it has no context and no function.
pub proof fn lemma_a_null_closure_has_nothing(closure: CClosure)
    ensures
        closure.is_null() == (closure.context == 0 && closure.call is None && closure.drop is None),
        closure.drop_call() is Some == closure.drop is Some,
        closure.drop is Some ==> closure.drop_call()->0.drop == closure.drop->0
            && closure.drop_call()->0.context == closure.context,
        closure.invocation() is Some == closure.call is Some,
        closure.call is Some ==> closure.invocation()->0.call == closure.call->0
            && closure.invocation()->0.context == closure.context,
{
}

/// Two optional runs of bytes are the same exactly where both are there with the
/// same bytes, or neither is.
pub proof fn lemma_a_run_is_its_bytes(a: Option<Vec<u8>>, b: Option<Vec<u8>>)
    ensures
        run_of(a) is Some == a is Some,
        a is Some ==> run_of(a)->0 == a->0@,
        run_of(a) == run_of(b) ==> a is Some == b is Some,
        run_of(a) == run_of(b) && a is Some ==> a->0@ == b->0@,
{
}

/// Two encodings say the same exactly where they have the same packed number and
/// the same schema.
pub proof fn lemma_equal_encodings_agree_in_every_part(
    a: Option<EncodingHint>,
    b: Option<EncodingHint>,
)
    ensures
        same_hint(a, b) == {
            &&& a is Some == b is Some
            &&& a is Some ==> a->0.packed_id == b->0.packed_id
            &&& a is Some ==> a->0.schema is Some == b->0.schema is Some
            &&& a is Some && a->0.schema is Some ==> a->0.schema->0@ == b->0.schema->0@
        },
{
}

/// Copying an encoding, reading one that is moved and taking one give the encoding
/// that is there. Only taking it leaves none behind.
pub proof fn lemma_an_encoding_is_carried_whole(
    hint: Option<EncodingHint>,
    copy: Option<EncodingHint>,
    moved: z_moved_encoding_t,
    read: Option<EncodingHint>,
    consumed: &mut z_moved_encoding_t,
    taken: Option<EncodingHint>,
)
    requires
        call_ensures(copy_hint, (&hint,), copy),
        call_ensures(moved_encoding_hint, (&moved,), read),
        call_ensures(take_moved_encoding, (consumed,), taken),
    ensures
        copy is Some == hint is Some,
        hint is Some ==> copy->0.packed_id == hint->0.packed_id,
        hint is Some ==> copy->0.schema is Some == hint->0.schema is Some,
        hint is Some && hint->0.schema is Some ==> copy->0.schema->0@ == hint->0.schema->0@,
        read is Some == moved._this.state is Some,
        read is Some ==> read->0.packed_id == moved._this.state->0.packed_id,
        read is Some ==> read->0.schema is Some == moved._this.state->0.schema is Some,
        read is Some && read->0.schema is Some ==> read->0.schema->0@
            == moved._this.state->0.schema->0@,
        taken == old(consumed)._this.state,
        final(consumed)._this.state is None,
{
}

/// Bytes are copied and taken as they are.
pub proof fn lemma_bytes_are_carried_whole(
    bytes: Vec<u8>,
    copy: Vec<u8>,
    run: Option<Vec<u8>>,
    run_copy: Option<Vec<u8>>,
    moved: &mut z_moved_bytes_t,
    taken: Option<Vec<u8>>,
    slot: z_owned_bytes_t,
)
    requires
        call_ensures(copy_bytes, (&bytes,), copy),
        call_ensures(copy_run, (&run,), run_copy),
        call_ensures(take_payload, (Some(moved),), taken),
    ensures
        copy@ == bytes@,
        run is Some == run_copy is Some,
        run is Some ==> run->0@ == run_copy->0@,
        taken is Some == old(moved)._this.state is Some,
        taken is Some ==> taken->0@ == old(moved)._this.state->0.payload@,
        final(moved)._this.state is None,
        payload_of(slot) is Some == slot.state is Some,
        slot.state is Some ==> payload_of(slot)->0 == slot.state->0.payload,
{
}

/// Options say the same exactly where they agree in every part.
pub proof fn lemma_equal_options_agree_in_every_part(a: PublishOptions, b: PublishOptions)
    ensures
        a.same_as(&b) == {
            &&& a.kind == b.kind
            &&& a.allowed_destination == b.allowed_destination
            &&& a.priority == b.priority
            &&& a.congestion_control == b.congestion_control
            &&& a.express == b.express
            &&& same_hint(a.encoding, b.encoding)
            &&& a.attachment is Some == b.attachment is Some
            &&& a.attachment is Some ==> a.attachment->0@ == b.attachment->0@
            &&& a.timestamp == b.timestamp
            &&& a.source_info == b.source_info
        },
        a.wf() == (a.priority <= 7),
{
}

/// The text and the wire alias that are read through a key expression are those it
/// holds. A null pointer and a gravestone have neither.
pub proof fn lemma_a_keyexpr_is_read_as_it_is(
    ke: Option<&z_loaned_keyexpr_t>,
    text: Option<&str>,
    mapping: Option<u64>,
)
    requires
        call_ensures(keyexpr_str, (ke,), text),
        call_ensures(keyexpr_mapping, (ke,), mapping),
    ensures
        text is Some == (ke is Some && ke->0.state is Some),
        text is Some ==> text->0@ == ke->0.state->0.keyexpr@ && mapping == ke->0.state->0.mapping,
        text is None ==> mapping is None,
        text_of(ke) is Some == text is Some,
        text is Some ==> text_of(ke)->0 == text->0@,
{
}

/// A slot holds a text exactly where its state has that text and no wire alias,
/// and none exactly where it is a gravestone.
pub proof fn lemma_a_slot_holds_its_text(
    slot: Owned<KeyexprState>,
    text: Seq<char>,
    optional: Option<String>,
)
    ensures
        holds_text(slot, Some(text)) == (slot.state is Some && slot.state->0.keyexpr@ == text
            && slot.state->0.mapping is None),
        holds_text(slot, None) == slot.state is None,
        characters(optional) is Some == optional is Some,
        optional is Some ==> characters(optional)->0 == optional->0@,
{
}

/// The session itself is among the places of every locality but the remote one.
pub proof fn lemma_only_remote_leaves_the_session_out(locality: Locality, allowed: bool)
    requires
        call_ensures(Locality::allows_local, (locality,), allowed),
    ensures
        allowed == (locality != Locality::Remote),
        locality.local() == allowed,
{
}

/// The identity of no entity is zero throughout.
pub proof fn lemma_the_empty_identity_is_zero(id: z_entity_global_id_t)
    requires
        call_ensures(z_entity_global_id_t::empty, (), id),
    ensures
        id.eid == 0,
        forall|i: int| 0 <= i < 16 ==> #[trigger] id.zid.id@[i] == 0,
{
}

} // verus!
