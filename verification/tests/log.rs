use wz_capi_c::closure::CClosure;
use wz_capi_c::closure::MovedClosure;
use wz_capi_c::log::zc_closure_log;
use wz_capi_c::log::zc_closure_log_call;
use wz_capi_c::log::zc_closure_log_drop;
use wz_capi_c::log::zc_closure_log_loan;
use wz_capi_c::log::zc_init_log_with_callback;
use wz_capi_c::log::zc_internal_closure_log_check;
use wz_capi_c::log::zc_internal_closure_log_null;
use wz_capi_c::log::ZC_LOG_SEVERITY_ERROR;
use wz_capi_c::log::ZC_LOG_SEVERITY_INFO;
use wz_capi_c::log::ZC_LOG_SEVERITY_WARN;

/// Stands for the C functions: their addresses.
const ON_LOG: usize = 0x10;
const ON_DROP: usize = 0x20;

/// Built, checked, borrowed, called, dropped.
#[test]
fn a_log_closure_calls_then_drops_exactly_once() {
    let mut calls = 0;
    let mut drops = 0;
    let mut closure = CClosure::null_value();
    assert!(
        !zc_internal_closure_log_check(Some(&closure)),
        "the gravestone reads as absent"
    );
    zc_closure_log(Some(&mut closure), Some(ON_LOG), Some(ON_DROP), 0);
    assert!(zc_internal_closure_log_check(Some(&closure)));
    let due = zc_closure_log_call(
        zc_closure_log_loan(Some(&closure)),
        ZC_LOG_SEVERITY_WARN,
        None,
    );
    if let Some(due) = due {
        assert_eq!(due.invocation.call, ON_LOG);
        assert_eq!(due.severity, ZC_LOG_SEVERITY_WARN);
        calls += 1;
    }
    assert_eq!(calls, 1);

    let mut moved = MovedClosure { _this: closure };
    if let Some(due) = zc_closure_log_drop(Some(&mut moved)) {
        assert_eq!(due.drop, ON_DROP);
        drops += 1;
    }
    assert_eq!(drops, 1);
    // A second drop runs nothing again.
    if zc_closure_log_drop(Some(&mut moved)).is_some() {
        drops += 1;
    }
    assert_eq!(drops, 1);
}

/// A callback that is installed is dropped.
#[test]
fn installing_a_callback_consumes_it() {
    let mut drops = 0;
    let mut closure = CClosure::null_value();
    zc_closure_log(Some(&mut closure), Some(ON_LOG), Some(ON_DROP), 0);
    let mut moved = MovedClosure { _this: closure };
    if let Some(due) = zc_init_log_with_callback(ZC_LOG_SEVERITY_INFO, Some(&mut moved)) {
        assert_eq!(due.drop, ON_DROP);
        drops += 1;
    }
    assert_eq!(
        drops, 1,
        "the moved closure was not consumed, so its context leaks"
    );
    assert!(!zc_internal_closure_log_check(Some(&moved._this)));
}

/// Every function takes a null.
#[test]
fn the_null_arguments_are_all_no_ops() {
    zc_closure_log(None, None, None, 0);
    assert!(zc_closure_log_call(None, ZC_LOG_SEVERITY_ERROR, None).is_none());
    assert!(zc_closure_log_loan(None).is_none());
    assert!(zc_closure_log_drop(None).is_none());
    assert!(!zc_internal_closure_log_check(None));
    zc_internal_closure_log_null(None);
}
