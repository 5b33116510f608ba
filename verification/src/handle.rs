//! Owned handles, and what moving one means.
//!
//! Every C value of this interface that owns something is a slot: live while it
//! holds a state, a gravestone once it does not. A nullable pointer to a slot is
//! an `Option`. Consuming a moved slot takes the state out and leaves the
//! gravestone behind, so a second drop of the same slot finds nothing.

use vstd::prelude::*;

verus! {

/// A slot that owns a state, or the gravestone.
pub struct Owned<T> {
    pub state: Option<T>,
}

/// A slot on its way to a function that consumes it.
pub struct Moved<T> {
    pub _this: Owned<T>,
}

impl<T> Owned<T> {
    /// The gravestone.
    pub fn null_value() -> (slot: Self)
        ensures
            slot.state is None,
    {
        Owned { state: None }
    }

    /// A live slot.
    pub fn from_state(state: T) -> (slot: Self)
        ensures
            slot.state == Some(state),
    {
        Owned { state: Some(state) }
    }
}

/// The state behind a nullable slot: nothing behind a null pointer or a
/// gravestone.
pub open spec fn live<T>(this_: Option<&Owned<T>>) -> Option<T> {
    match this_ {
        Some(slot) => slot.state,
        None => None,
    }
}

/// Borrows the state behind a nullable slot.
pub fn state_of<T>(this_: Option<&Owned<T>>) -> (state: Option<&T>)
    ensures
        state is Some <==> live(this_) is Some,
        state matches Some(s) ==> live(this_) == Some(*s),
{
    match this_ {
        Some(slot) => slot.state.as_ref(),
        None => None,
    }
}

/// Whether a nullable slot holds a state.
pub fn is_live<T>(this_: Option<&Owned<T>>) -> (r: bool)
    ensures
        r == (live(this_) is Some),
{
    state_of(this_).is_some()
}

/// Makes a nullable slot the gravestone.
pub fn gravestone<T>(this_: Option<&mut Owned<T>>)
    ensures
        this_ matches Some(slot) ==> final(slot).state is None,
{
    if let Some(slot) = this_ {
        slot.state = None;
    }
}

/// Takes the state out of a nullable moved slot and leaves the gravestone.
pub fn take<T>(this_: Option<&mut Moved<T>>) -> (state: Option<T>)
    ensures
        match this_ {
            Some(moved) => state == moved._this.state && final(moved)._this.state is None,
            None => state is None,
        },
{
    match this_ {
        Some(moved) => moved._this.state.take(),
        None => None,
    }
}

} // verus!
