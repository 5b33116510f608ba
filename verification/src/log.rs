//! Log closures. Nothing is logged through one: a closure that is installed is
//! consumed, which means that it is dropped.

use vstd::prelude::*;

use crate::closure::build;
use crate::closure::discard;
use crate::closure::gravestone;
use crate::closure::holds_call;
use crate::closure::invoke;
use crate::closure::CClosure;
use crate::closure::DropCall;
use crate::closure::Invocation;
use crate::closure::MovedClosure;
use crate::string::z_loaned_string_t;

verus! {

/// How severe a log line is.
pub type zc_log_severity_t = i32;

/// The "trace" level.
pub const ZC_LOG_SEVERITY_TRACE: zc_log_severity_t = 0;

/// The "debug" level.
pub const ZC_LOG_SEVERITY_DEBUG: zc_log_severity_t = 1;

/// The "info" level.
pub const ZC_LOG_SEVERITY_INFO: zc_log_severity_t = 2;

/// The "warn" level.
pub const ZC_LOG_SEVERITY_WARN: zc_log_severity_t = 3;

/// The "error" level.
pub const ZC_LOG_SEVERITY_ERROR: zc_log_severity_t = 4;

/// An owned log closure.
pub type zc_owned_closure_log_t = CClosure;

/// A borrowed log closure: the same value.
pub type zc_loaned_closure_log_t = CClosure;

/// A log closure on its way to be consumed.
pub type zc_moved_closure_log_t = MovedClosure;

/// Writes a log closure from its parts.
pub fn zc_closure_log(
    this_: Option<&mut zc_owned_closure_log_t>,
    call: Option<usize>,
    drop: Option<usize>,
    context: usize,
)
    ensures
        this_ matches Some(slot) ==> *final(slot) == (CClosure { context, call, drop }),
{
    build(this_, call, drop, context)
}

/// A call of a log closure, due now.
pub struct LogCall<'a> {
    pub invocation: Invocation,
    pub severity: zc_log_severity_t,
    pub msg: Option<&'a z_loaned_string_t<'a>>,
}

/// Invokes a log closure: the call that is due. A closure without a function makes
/// none.
pub fn zc_closure_log_call<'a>(
    closure: Option<&zc_loaned_closure_log_t>,
    severity: zc_log_severity_t,
    msg: Option<&'a z_loaned_string_t<'a>>,
) -> (due: Option<LogCall<'a>>)
    ensures
        due == (match closure {
            Some(closure) => match closure.invocation() {
                Some(invocation) => Some(LogCall { invocation, severity, msg }),
                None => None,
            },
            None => None,
        }),
{
    match invoke(closure) {
        Some(invocation) => Some(LogCall { invocation, severity, msg }),
        None => None,
    }
}

/// Borrows a log closure.
pub fn zc_closure_log_loan(closure: Option<&zc_owned_closure_log_t>) -> (loaned: Option<
    &zc_loaned_closure_log_t,
>)
    ensures
        loaned == closure,
{
    closure
}

/// Drops a log closure.
pub fn zc_closure_log_drop(closure_: Option<&mut zc_moved_closure_log_t>) -> (due: Option<
    DropCall,
>)
    ensures
        match closure_ {
            Some(m) => due == m._this.drop_call() && final(m)._this.is_null(),
            None => due is None,
        },
{
    discard(closure_)
}

/// Whether a log closure holds a function.
pub fn zc_internal_closure_log_check(this_: Option<&zc_owned_closure_log_t>) -> (r: bool)
    ensures
        r == (this_ matches Some(closure) && closure.call is Some),
{
    holds_call(this_)
}

/// Makes a log closure the gravestone.
pub fn zc_internal_closure_log_null(this_: Option<&mut zc_owned_closure_log_t>)
    ensures
        this_ matches Some(slot) ==> final(slot).is_null(),
{
    gravestone(this_)
}

/// Installs a log callback: it is consumed, and so its drop is due.
pub fn zc_init_log_with_callback(
    _min_severity: zc_log_severity_t,
    callback: Option<&mut zc_moved_closure_log_t>,
) -> (due: Option<DropCall>)
    ensures
        match callback {
            Some(m) => due == m._this.drop_call() && final(m)._this.is_null(),
            None => due is None,
        },
{
    zc_closure_log_drop(callback)
}

} // verus!
