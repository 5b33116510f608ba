use wz_capi_c::bytes::BytesState;
use wz_capi_c::closure::CClosure;
use wz_capi_c::closure::DropCall;
use wz_capi_c::closure::MovedClosure;
use wz_capi_c::handle::Moved;
use wz_capi_c::handle::Owned;
use wz_capi_c::keyexpr::keyexpr_str;
use wz_capi_c::keyexpr::z_owned_keyexpr_t;
use wz_capi_c::keyexpr::KeyexprState;
use wz_capi_c::meta::z_source_info_t;
use wz_capi_c::meta::z_timestamp_t;
use wz_capi_c::meta::EncodingHint;
use wz_capi_c::publisher::ZC_LOCALITY_ANY;
use wz_capi_c::publisher::ZC_LOCALITY_REMOTE;
use wz_capi_c::publisher::ZC_LOCALITY_SESSION_LOCAL;
use wz_capi_c::qos::Locality;
use wz_capi_c::query::begin_dispatch;
use wz_capi_c::query::end_dispatch;
use wz_capi_c::query::parameters_has_anyke;
use wz_capi_c::query::queryable_declare_params;
use wz_capi_c::query::reply_keyexpr_is_covered;
use wz_capi_c::query::z_declare_background_queryable;
use wz_capi_c::query::z_declare_queryable;
use wz_capi_c::query::z_internal_query_check;
use wz_capi_c::query::z_owned_query_t;
use wz_capi_c::query::z_owned_queryable_t;
use wz_capi_c::query::z_query_attachment;
use wz_capi_c::query::z_query_clone;
use wz_capi_c::query::z_query_drop;
use wz_capi_c::query::z_query_encoding;
use wz_capi_c::query::z_query_keyexpr;
use wz_capi_c::query::z_query_loan;
use wz_capi_c::query::z_query_loan_mut;
use wz_capi_c::query::z_query_parameters;
use wz_capi_c::query::z_query_payload;
use wz_capi_c::query::z_query_reply;
use wz_capi_c::query::z_query_reply_del;
use wz_capi_c::query::z_query_reply_err;
use wz_capi_c::query::z_query_reply_err_options_t;
use wz_capi_c::query::z_query_reply_options_default;
use wz_capi_c::query::z_query_reply_options_t;
use wz_capi_c::query::z_query_source_info;
use wz_capi_c::query::z_queryable_keyexpr;
use wz_capi_c::query::z_queryable_options_default;
use wz_capi_c::query::z_queryable_options_t;
use wz_capi_c::query::z_undeclare_queryable;
use wz_capi_c::query::QueryMarshal;
use wz_capi_c::query::QueryView;
use wz_capi_c::query::ReplyCall;
use wz_capi_c::result::Z_EINVAL;
use wz_capi_c::result::Z_ENULL;
use wz_capi_c::result::Z_OK;
use wz_capi_c::session::z_owned_session_t;
use wz_capi_c::session::SessionState;
use wz_capi_c::slice::null_slice;
use wz_capi_c::slice::z_slice_data;
use wz_capi_c::slice::z_slice_len;

fn meets(a: &[String], b: &[String]) -> bool {
    match (a.first(), b.first()) {
        (None, None) => true,
        (Some(x), _) if x == "**" => meets(&a[1..], b) || (!b.is_empty() && meets(a, &b[1..])),
        (_, Some(y)) if y == "**" => meets(a, &b[1..]) || (!a.is_empty() && meets(&a[1..], b)),
        (Some(x), Some(y)) => (x == y || x == "*" || y == "*") && meets(&a[1..], &b[1..]),
        _ => false,
    }
}

fn intersects(a: &Vec<String>, b: &Vec<String>) -> bool {
    meets(a, b)
}

fn key(text: &str) -> z_owned_keyexpr_t {
    Owned::from_state(KeyexprState::new(text.to_string()))
}

fn session() -> z_owned_session_t {
    Owned::from_state(SessionState {
        shared: 7,
        closed: false,
    })
}

fn payload(bytes: &[u8]) -> Moved<BytesState> {
    Moved {
        _this: Owned::from_state(BytesState::whole(bytes.to_vec())),
    }
}

fn nothing<T>() -> Moved<T> {
    Moved {
        _this: Owned::null_value(),
    }
}

fn sourced(source_info: Option<z_source_info_t>) -> QueryView {
    QueryView {
        keyexpr: "demo/**".to_string(),
        parameters: None,
        payload: None,
        attachment: None,
        encoding: None,
        source_info,
        rid: 11,
    }
}

/// Both options reach the declaration, on every value.
#[test]
fn queryable_options_carry_both_complete_and_allowed_origin() {
    // A null is the defaults, not an error.
    let (complete, origin) = queryable_declare_params(None);
    assert!(
        !complete,
        "z_queryable_options_default writes complete=false"
    );
    assert_eq!(origin, Locality::Any, "and allowed_origin = ZC_LOCALITY_ANY");

    for (c_value, expected) in [
        (ZC_LOCALITY_ANY, Locality::Any),
        (ZC_LOCALITY_SESSION_LOCAL, Locality::SessionLocal),
        (ZC_LOCALITY_REMOTE, Locality::Remote),
    ] {
        for complete_in in [false, true] {
            let o = z_queryable_options_t {
                complete: complete_in,
                allowed_origin: c_value,
            };
            let (complete, origin) = queryable_declare_params(Some(&o));
            assert_eq!(complete, complete_in, "complete must not be disturbed");
            assert_eq!(
                origin, expected,
                "z_queryable_options_t.allowed_origin = {c_value} -> {expected:?}",
            );
        }
    }
}

/// A wildcard query takes a reply under a key that it meets.
#[test]
fn the_reply_gate_intersects_rather_than_compares() {
    assert!(reply_keyexpr_is_covered("demo/**", "demo/a/b", false, &intersects));
    assert!(reply_keyexpr_is_covered("demo/*", "demo/a", false, &intersects));
    assert!(!reply_keyexpr_is_covered("demo/a", "other/a", false, &intersects));
    // `_anyke` lets every key through.
    assert!(reply_keyexpr_is_covered("demo/a", "other/a", true, &intersects));
}

/// `_anyke` counts bare and with a value, and not as the start of another field.
#[test]
fn anyke_is_read_off_the_selector_exactly() {
    assert!(parameters_has_anyke(b"_anyke"));
    assert!(parameters_has_anyke(b"a=1&_anyke&b=2"));
    assert!(parameters_has_anyke(b"_anyke=true"));
    assert!(!parameters_has_anyke(b"_anykey=1"));
    assert!(!parameters_has_anyke(b""));
}

/// A queryable is not complete unless it says so.
#[test]
fn the_queryable_options_default_is_incomplete_and_any_origin() {
    let mut opts = z_queryable_options_t {
        complete: true,
        allowed_origin: 99,
    };
    z_queryable_options_default(Some(&mut opts));
    assert!(!opts.complete);
    assert_eq!(opts.allowed_origin, 0);
}

/// Every accessor answers a null query.
#[test]
fn the_query_accessors_answer_null_without_dereferencing_it() {
    assert!(z_query_keyexpr(None).is_none());
    assert!(z_query_payload(None).is_none());
    assert!(z_query_attachment(None).is_none());
    assert!(z_query_loan(None).is_none());
    assert!(!z_internal_query_check(None));
    let mut params = null_slice();
    z_query_parameters(None, Some(&mut params));
    assert_eq!(z_slice_len(Some(&params)), 0);
    assert_eq!(
        z_query_reply(None, None, None, None, &intersects).code,
        Z_ENULL
    );
    assert!(z_query_drop(None).is_none());
}

/// The identity of who asked reaches the accessor, each part of it.
#[test]
fn a_querys_source_info_reaches_the_c_accessor() {
    let view = sourced(Some(z_source_info_t {
        zid: [9u8; 16],
        eid: 5,
        sn: 77,
    }));
    let mut marshal = QueryMarshal::new(&view);
    marshal.bind();
    let got = z_query_source_info(Some(&marshal));
    assert!(
        got.is_some(),
        "a query that carried source info must not report NULL"
    );
    let si = got.unwrap();
    assert_eq!(si.zid, [9u8; 16]);
    assert_eq!(si.eid, 5);
    assert_eq!(si.sn, 77);
}

/// A query that does not say who asked reports null.
#[test]
fn a_query_without_source_info_reports_null() {
    let view = sourced(None);
    let mut marshal = QueryMarshal::new(&view);
    marshal.bind();
    assert!(z_query_source_info(Some(&marshal)).is_none());
}

/// A query that outlives its call still says who asked.
#[test]
fn an_escaped_query_keeps_its_source_info() {
    let view = sourced(Some(z_source_info_t {
        zid: [4u8; 16],
        eid: 1,
        sn: 2,
    }));
    let borrowed = QueryMarshal::new(&view);
    let mut escaped = borrowed.deep_copy_deferred(7);
    escaped.bind();
    let got = z_query_source_info(Some(&escaped));
    assert!(got.is_some(), "the escaped copy must carry it too");
    assert_eq!(got.unwrap().zid, [4u8; 16]);
    assert_eq!(got.unwrap().eid, 1);
    assert_eq!(got.unwrap().sn, 2);
}

fn asked(parameters: &[u8]) -> QueryView {
    QueryView {
        keyexpr: "demo/*".to_string(),
        parameters: Some(parameters.to_vec()),
        payload: Some(b"in".to_vec()),
        attachment: None,
        encoding: Some(EncodingHint {
            packed_id: 6,
            schema: None,
        }),
        source_info: None,
        rid: 11,
    }
}

fn handler() -> CClosure {
    CClosure {
        context: 3,
        call: Some(1),
        drop: Some(2),
    }
}

#[test]
fn replies_are_recorded_and_flushed_in_order_when_the_call_returns() {
    let dispatch = begin_dispatch(&handler(), &asked(b"p=1"), 7).unwrap();
    assert_eq!(dispatch.invocation.call, 1);
    let mut marshal = dispatch.marshal;
    let mut view = null_slice();
    z_query_parameters(Some(&marshal), Some(&mut view));
    assert_eq!(z_slice_data(Some(&view)), Some(&b"p=1"[..]));
    assert_eq!(z_query_encoding(Some(&marshal)).unwrap().packed_id, 6);
    assert_eq!(keyexpr_str(z_query_keyexpr(Some(&marshal))), Some("demo/*"));

    let mut options = z_query_reply_options_t {
        encoding: nothing(),
        congestion_control: 0,
        priority: 0,
        is_express: true,
        timestamp: None,
        source_info: None,
        attachment: nothing(),
    };
    z_query_reply_options_default(Some(&mut options));
    assert!(!options.is_express);
    options.timestamp = Some(z_timestamp_t {
        time: 4,
        id: [1; 16],
    });
    options.attachment = payload(b"att");
    let mut body = payload(b"v");
    let outcome = z_query_reply(
        Some(&mut marshal),
        Some(&key("demo/a")),
        Some(&mut body),
        Some(&mut options),
        &intersects,
    );
    assert_eq!(outcome.code, Z_OK);
    assert!(outcome.due.is_none());
    assert!(options.attachment._this.state.is_none());
    let outcome = z_query_reply_del(Some(&mut marshal), Some(&key("demo/b")), None, &intersects);
    assert_eq!(outcome.code, Z_OK);
    let mut fault = payload(b"no");
    let mut err = z_query_reply_err_options_t {
        encoding: Moved {
            _this: Owned::from_state(EncodingHint {
                packed_id: 3,
                schema: Some(vec![9]),
            }),
        },
    };
    assert_eq!(
        z_query_reply_err(Some(&mut marshal), Some(&mut fault), Some(&mut err)).code,
        Z_OK
    );

    let end = end_dispatch(marshal);
    assert_eq!((end.holds, end.rid, end.calls.len()), (0, 11, 3));
    match &end.calls[0] {
        ReplyCall::Keyed {
            keyexpr,
            payload,
            meta,
        } => {
            assert_eq!((keyexpr.as_str(), &payload[..]), ("demo/a", &b"v"[..]));
            assert_eq!(meta.attachment, Some(b"att".to_vec()));
            assert_eq!(meta.timestamp.unwrap().time, 4);
        }
        _ => panic!("the first reply puts"),
    }
    assert!(matches!(&end.calls[1], ReplyCall::KeyedDel { keyexpr, .. } if keyexpr == "demo/b"));
    match &end.calls[2] {
        ReplyCall::Fault {
            encoding_id,
            schema,
            payload,
        } => {
            assert_eq!(&payload[..], b"no");
            assert_eq!(schema.as_deref(), Some(&[9u8][..]));
            assert!(encoding_id.is_some());
        }
        _ => panic!("the last reply is an error"),
    }
}

#[test]
fn a_reply_under_a_key_that_was_not_asked_for_is_refused() {
    let mut marshal = begin_dispatch(&handler(), &asked(b""), 7).unwrap().marshal;
    let mut body = payload(b"v");
    let outcome = z_query_reply(
        Some(&mut marshal),
        Some(&key("other/a")),
        Some(&mut body),
        None,
        &intersects,
    );
    assert_eq!(outcome.code, Z_EINVAL);
    assert!(body._this.state.is_none(), "the payload is consumed all the same");
    assert!(end_dispatch(marshal).calls.is_empty());

    // The query may say that any key will do.
    let mut marshal = begin_dispatch(&handler(), &asked(b"_anyke"), 7).unwrap().marshal;
    let mut body = payload(b"v");
    let outcome = z_query_reply(
        Some(&mut marshal),
        Some(&key("other/a")),
        Some(&mut body),
        None,
        &intersects,
    );
    assert_eq!(outcome.code, Z_OK);
}

#[test]
fn an_escaped_query_is_one_hold_and_one_release() {
    let mut marshal = begin_dispatch(&handler(), &asked(b""), 7).unwrap().marshal;
    let mut owned: z_owned_query_t = Owned::null_value();
    z_query_clone(Some(&mut owned), Some(&mut marshal));
    assert!(z_internal_query_check(Some(&owned)));
    let end = end_dispatch(marshal);
    assert_eq!(end.holds, 1);

    // A reply after the call goes out at once, in the same form.
    let mut body = payload(b"late");
    let outcome = z_query_reply(
        z_query_loan_mut(Some(&mut owned)),
        Some(&key("demo/a")),
        Some(&mut body),
        None,
        &intersects,
    );
    assert_eq!(outcome.code, Z_OK);
    let due = outcome.due.unwrap();
    assert_eq!((due.responder.session, due.responder.rid), (7, 11));
    assert!(matches!(due.call, ReplyCall::Keyed { ref payload, .. } if payload == b"late"));

    let mut moved = Moved { _this: owned };
    let release = z_query_drop(Some(&mut moved)).unwrap();
    assert_eq!((release.session, release.rid), (7, 11));
    assert!(z_query_drop(Some(&mut moved)).is_none());
}

#[test]
fn a_queryable_is_declared_with_its_closure_and_undeclared_once() {
    let mut slot: z_owned_queryable_t = Owned::null_value();
    let mut closure = MovedClosure { _this: handler() };
    let options = z_queryable_options_t {
        complete: true,
        allowed_origin: ZC_LOCALITY_REMOTE,
    };
    let r = z_declare_queryable(
        Some(&session()),
        Some(&mut slot),
        Some(&key("q/**")),
        Some(&mut closure),
        Some(&options),
        &|_: &str| true,
        |d| {
            assert_eq!((d.session, d.keyexpr.as_str()), (7, "q/**"));
            assert!(d.complete);
            assert_eq!(d.allowed_origin, Locality::Remote);
            assert_eq!(d.closure.call, Some(1));
            60
        },
    );
    assert_eq!(r, (Z_OK, None));
    assert!(closure._this.call.is_none());
    assert_eq!(keyexpr_str(z_queryable_keyexpr(Some(&slot))), Some("q/**"));
    let mut moved = Moved { _this: slot };
    let (code, retraction) = z_undeclare_queryable(Some(&mut moved));
    assert_eq!(code, Z_OK);
    assert_eq!(retraction.unwrap().id, 60);
    assert!(z_undeclare_queryable(Some(&mut moved)).1.is_none());
}

#[test]
fn a_refused_queryable_still_drops_its_closure() {
    let due = Some(DropCall {
        drop: 2,
        context: 3,
    });
    let mut slot: z_owned_queryable_t = Owned::null_value();
    let mut closure = MovedClosure { _this: handler() };
    let r = z_declare_queryable(
        Some(&session()),
        Some(&mut slot),
        Some(&key("q")),
        Some(&mut closure),
        None,
        &|_: &str| false,
        |_| 60,
    );
    assert_eq!(r, (Z_EINVAL, due));
    let mut closure = MovedClosure { _this: handler() };
    let r = z_declare_background_queryable(
        None,
        Some(&key("q")),
        Some(&mut closure),
        None,
        &|_: &str| true,
        |_| 60,
    );
    assert_eq!(r, (Z_ENULL, due));
    let mut closure = MovedClosure { _this: handler() };
    let r = z_declare_background_queryable(
        Some(&session()),
        Some(&key("q")),
        Some(&mut closure),
        None,
        &|_: &str| true,
        |_| 60,
    );
    assert_eq!(r, (Z_OK, None));
}
