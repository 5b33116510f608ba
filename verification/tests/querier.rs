use wz_capi_c::bytes::BytesState;
use wz_capi_c::closure::CClosure;
use wz_capi_c::closure::DropCall;
use wz_capi_c::closure::MovedClosure;
use wz_capi_c::handle::Moved;
use wz_capi_c::handle::Owned;
use wz_capi_c::keyexpr::z_owned_keyexpr_t;
use wz_capi_c::keyexpr::KeyexprState;
use wz_capi_c::matching::z_matching_status_t;
use wz_capi_c::matching::z_owned_matching_listener_t;
use wz_capi_c::matching::z_querier_declare_matching_listener;
use wz_capi_c::matching::z_querier_get_matching_status;
use wz_capi_c::matching::MatchingHold;
use wz_capi_c::matching::MatchingScope;
use wz_capi_c::meta::z_source_info_t;
use wz_capi_c::meta::EncodingHint;
use wz_capi_c::qos::CongestionControl;
use wz_capi_c::querier::saturate_timeout;
use wz_capi_c::querier::z_declare_querier;
use wz_capi_c::querier::z_internal_querier_check;
use wz_capi_c::querier::z_owned_querier_t;
use wz_capi_c::querier::z_querier_declare_background_matching_listener;
use wz_capi_c::querier::z_querier_drop;
use wz_capi_c::querier::z_querier_get;
use wz_capi_c::querier::z_querier_get_options_default;
use wz_capi_c::querier::z_querier_get_options_t;
use wz_capi_c::querier::z_querier_options_default;
use wz_capi_c::querier::z_querier_options_t;
use wz_capi_c::querier::z_query_consolidation_t;
use wz_capi_c::querier::z_undeclare_querier;
use wz_capi_c::querier::Z_CONSOLIDATION_MODE_AUTO;
use wz_capi_c::querier::Z_QUERY_TARGET_BEST_MATCHING;
use wz_capi_c::result::Z_EINVAL;
use wz_capi_c::result::Z_ENULL;
use wz_capi_c::result::Z_OK;
use wz_capi_c::session::z_owned_session_t;
use wz_capi_c::session::SessionState;

fn key(text: &str) -> z_owned_keyexpr_t {
    Owned::from_state(KeyexprState::new(text.to_string()))
}

fn session() -> z_owned_session_t {
    Owned::from_state(SessionState {
        shared: 7,
        closed: false,
    })
}

fn payload(bytes: &[u8]) -> Moved<BytesState> {
    Moved {
        _this: Owned::from_state(BytesState::whole(bytes.to_vec())),
    }
}

fn odd_options() -> z_querier_options_t {
    z_querier_options_t {
        target: 99,
        consolidation: z_query_consolidation_t { mode: 99 },
        congestion_control: 99,
        is_express: true,
        allowed_destination: 99,
        accept_replies: 99,
        priority: 99,
        timeout_ms: 99,
    }
}

/// The defaults of both sets of options.
#[test]
fn the_querier_options_defaults_match_upstreams() {
    let mut opts = odd_options();
    z_querier_options_default(Some(&mut opts));
    assert_eq!(opts.target, Z_QUERY_TARGET_BEST_MATCHING);
    assert_eq!(opts.consolidation.mode, Z_CONSOLIDATION_MODE_AUTO);
    assert_eq!(opts.timeout_ms, 0);

    let mut get_opts = z_querier_get_options_t {
        payload: payload(b"x"),
        encoding: Moved {
            _this: Owned::from_state(EncodingHint {
                packed_id: 1,
                schema: None,
            }),
        },
        source_info: Some(z_source_info_t {
            zid: [1; 16],
            eid: 1,
            sn: 1,
        }),
        attachment: payload(b"x"),
    };
    z_querier_get_options_default(Some(&mut get_opts));
    assert!(get_opts.payload._this.state.is_none());
    assert!(get_opts.attachment._this.state.is_none());
}

/// Every function answers a null.
#[test]
fn the_querier_exports_answer_null_without_dereferencing_it() {
    assert!(!z_internal_querier_check(None));
    assert_eq!(z_querier_get(None, None, None, None, |_| Z_OK).0, Z_ENULL);
    assert_eq!(
        z_querier_declare_background_matching_listener(None, None, |_| 1).code,
        Z_ENULL
    );
    assert_eq!(z_undeclare_querier(None).0, Z_OK);
    z_querier_drop(None);
}

fn handler() -> MovedClosure {
    MovedClosure {
        _this: CClosure {
            context: 3,
            call: Some(1),
            drop: Some(2),
        },
    }
}

#[test]
fn a_get_inherits_what_the_querier_was_declared_with() {
    let mut options = odd_options();
    z_querier_options_default(Some(&mut options));
    options.priority = 2;
    options.is_express = true;
    options.timeout_ms = u64::MAX;
    let mut slot: z_owned_querier_t = Owned::null_value();
    assert_eq!(
        z_declare_querier(
            Some(&session()),
            Some(&mut slot),
            Some(&key("a/*")),
            Some(&options),
            &|_: &str| true
        ),
        Z_OK
    );
    let mut get_options = z_querier_get_options_t {
        payload: payload(b"in"),
        encoding: Moved {
            _this: Owned::from_state(EncodingHint {
                packed_id: 4,
                schema: None,
            }),
        },
        source_info: None,
        attachment: payload(b"att"),
    };
    let mut closure = handler();
    let mut seen = None;
    let r = z_querier_get(
        Some(&slot),
        Some(&b"k=v"[..]),
        Some(&mut closure),
        Some(&mut get_options),
        |request| {
            seen = Some(request);
            Z_OK
        },
    );
    assert_eq!(r, (Z_OK, None));
    let request = seen.unwrap();
    assert_eq!((request.session, request.keyexpr.as_str()), (7, "a/*"));
    assert_eq!(request.parameters.as_deref(), Some(&b"k=v"[..]));
    assert_eq!(request.payload.as_deref(), Some(&b"in"[..]));
    assert_eq!(request.attachment.as_deref(), Some(&b"att"[..]));
    assert_eq!(request.encoding.unwrap().packed_id, 4);
    assert_eq!(request.closure.context, 3);
    let base = request.base.unwrap();
    assert_eq!(base.timeout_ms, u32::MAX);
    assert_eq!((base.priority, base.express), (2, true));
    assert_eq!(base.congestion_control, CongestionControl::Block);
    // The encoding is read; the payload and the attachment are consumed.
    assert!(get_options.encoding._this.state.is_some());
    assert!(get_options.payload._this.state.is_none());
    assert!(closure._this.call.is_none());
}

#[test]
fn a_get_on_a_dead_querier_is_over_at_once() {
    let dead: z_owned_querier_t = Owned::null_value();
    let mut closure = handler();
    let r = z_querier_get(Some(&dead), None, Some(&mut closure), None, |_| Z_OK);
    assert_eq!(
        r,
        (
            Z_ENULL,
            Some(DropCall {
                drop: 2,
                context: 3
            })
        )
    );
    let mut slot: z_owned_querier_t = Owned::null_value();
    assert_eq!(
        z_declare_querier(
            Some(&session()),
            Some(&mut slot),
            Some(&key("a")),
            None,
            &|_: &str| false
        ),
        Z_EINVAL
    );
    assert_eq!(
        z_declare_querier(Some(&session()), Some(&mut slot), None, None, &|_: &str| true),
        Z_ENULL
    );
}

#[test]
fn a_querier_watches_for_those_who_answer() {
    let mut slot: z_owned_querier_t = Owned::null_value();
    assert_eq!(
        z_declare_querier(
            Some(&session()),
            Some(&mut slot),
            Some(&key("a")),
            None,
            &|_: &str| true
        ),
        Z_OK
    );
    let mut closure = handler();
    let mut owned: z_owned_matching_listener_t = Owned::null_value();
    let r = z_querier_declare_matching_listener(
        Some(&slot),
        Some(&mut owned),
        Some(&mut closure),
        |d| {
            assert_eq!(d.scope, MatchingScope::Queryables);
            30
        },
    );
    assert_eq!(r, (Z_OK, None));
    assert_eq!(owned.state.unwrap().id, 30);
    let mut status = z_matching_status_t { matching: false };
    assert_eq!(
        z_querier_get_matching_status(Some(&slot), Some(&mut status), |_, _: &str, scope| {
            scope == MatchingScope::Queryables
        }),
        Z_OK
    );
    assert!(status.matching);
    let mut closure = handler();
    let r = z_querier_declare_background_matching_listener(
        Some(&mut slot),
        Some(&mut closure),
        |d| {
            assert_eq!(d.scope, MatchingScope::Queryables);
            31
        },
    );
    assert_eq!((r.code, r.retired), (Z_OK, None));
    let mut moved = Moved { _this: slot };
    assert_eq!(z_querier_drop(Some(&mut moved)), Some(MatchingHold::new(7, 31)));
    assert_eq!(z_querier_drop(Some(&mut moved)), None);
}

#[test]
fn a_long_timeout_does_not_wrap_into_a_short_one() {
    assert_eq!(saturate_timeout(0), 0);
    assert_eq!(saturate_timeout(u32::MAX as u64), u32::MAX);
    assert_eq!(saturate_timeout(u32::MAX as u64 + 1), u32::MAX);
    assert_eq!(saturate_timeout(1500), 1500);
}
