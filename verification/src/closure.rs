//! C closures: a context, a function to call, and a function to drop it with.
//!
//! Functions and contexts are addresses here. Nothing is called from this module;
//! what has to be called is handed back, and whoever holds the functions calls.

use vstd::prelude::*;

verus! {

/// A closure, or the gravestone where it holds nothing.
#[derive(Clone, Copy, Debug, PartialEq, Eq, Structural)]
pub struct CClosure {
    pub context: usize,
    pub call: Option<usize>,
    pub drop: Option<usize>,
}

/// A closure on its way to be consumed.
pub struct MovedClosure {
    pub _this: CClosure,
}

/// A call of a closure's function, due now.
#[derive(Clone, Copy, Debug, PartialEq, Eq, Structural)]
pub struct Invocation {
    pub call: usize,
    pub context: usize,
}

/// A call of a drop function, due now and once.
#[derive(Clone, Copy, Debug, PartialEq, Eq, Structural)]
pub struct DropCall {
    pub drop: usize,
    pub context: usize,
}

impl CClosure {
    /// The gravestone: no context and no functions.
    pub open spec fn is_null(self) -> bool {
        self.context == 0 && self.call is None && self.drop is None
    }

    /// The call that invoking the closure makes. A closure without a function
    /// makes none.
    pub open spec fn invocation(self) -> Option<Invocation> {
        match self.call {
            Some(call) => Some(Invocation { call, context: self.context }),
            None => None,
        }
    }

    /// The call that dropping the closure makes.
    pub open spec fn drop_call(self) -> Option<DropCall> {
        match self.drop {
            Some(drop) => Some(DropCall { drop, context: self.context }),
            None => None,
        }
    }

    /// The gravestone.
    pub fn null_value() -> (closure: CClosure)
        ensures
            closure.is_null(),
    {
        CClosure { context: 0, call: None, drop: None }
    }

    /// The call due when the closure is invoked.
    pub fn invoke(&self) -> (due: Option<Invocation>)
        ensures
            due == self.invocation(),
    {
        match self.call {
            Some(call) => Some(Invocation { call, context: self.context }),
            None => None,
        }
    }

    /// The call due when the closure is dropped.
    pub fn dropping(&self) -> (due: Option<DropCall>)
        ensures
            due == self.drop_call(),
    {
        match self.drop {
            Some(drop) => Some(DropCall { drop, context: self.context }),
            None => None,
        }
    }
}

/// Writes a closure from its parts.
pub fn build(this_: Option<&mut CClosure>, call: Option<usize>, drop: Option<usize>, context: usize)
    ensures
        this_ matches Some(slot) ==> *final(slot) == (CClosure { context, call, drop }),
{
    if let Some(slot) = this_ {
        *slot = CClosure { context, call, drop };
    }
}

/// Consumes a moved closure: takes it and leaves the gravestone.
pub fn adopt(moved: &mut MovedClosure) -> (closure: CClosure)
    ensures
        closure == old(moved)._this,
        final(moved)._this.is_null(),
{
    let closure = moved._this;
    moved._this = CClosure::null_value();
    closure
}

/// Drops a closure that was never used: the call due, and the gravestone left
/// behind, so that a second drop finds no call.
pub fn discard(moved: Option<&mut MovedClosure>) -> (due: Option<DropCall>)
    ensures
        match moved {
            Some(m) => due == m._this.drop_call() && final(m)._this.is_null(),
            None => due is None,
        },
{
    match moved {
        Some(m) => {
            let due = m._this.dropping();
            m._this = CClosure::null_value();
            due
        },
        None => None,
    }
}

/// The call due when a nullable closure is invoked.
pub fn invoke(closure: Option<&CClosure>) -> (due: Option<Invocation>)
    ensures
        due == (match closure {
            Some(closure) => closure.invocation(),
            None => None,
        }),
{
    match closure {
        Some(closure) => closure.invoke(),
        None => None,
    }
}

/// Whether a nullable closure holds a function to call.
pub fn holds_call(closure: Option<&CClosure>) -> (r: bool)
    ensures
        r == (closure matches Some(closure) && closure.call is Some),
{
    match closure {
        Some(closure) => closure.call.is_some(),
        None => false,
    }
}

/// Makes a nullable closure the gravestone.
pub fn gravestone(this_: Option<&mut CClosure>)
    ensures
        this_ matches Some(slot) ==> final(slot).is_null(),
{
    if let Some(slot) = this_ {
        *slot = CClosure::null_value();
    }
}

/// Dropping a closure twice runs its drop function once.
pub proof fn lemma_second_drop_is_silent(left_behind: CClosure)
    requires
        left_behind.is_null(),
    ensures
        left_behind.drop_call() is None,
        left_behind.invocation() is None,
{
}

} // verus!
