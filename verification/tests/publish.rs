use wz_capi_c::bytes::BytesState;
use wz_capi_c::closure::CClosure;
use wz_capi_c::closure::DropCall;
use wz_capi_c::closure::MovedClosure;
use wz_capi_c::handle::Moved;
use wz_capi_c::handle::Owned;
use wz_capi_c::keyexpr::keyexpr_str;
use wz_capi_c::keyexpr::z_owned_keyexpr_t;
use wz_capi_c::keyexpr::KeyexprState;
use wz_capi_c::matching::matching_sink;
use wz_capi_c::matching::z_closure_matching_status;
use wz_capi_c::matching::z_closure_matching_status_call;
use wz_capi_c::matching::z_closure_matching_status_drop;
use wz_capi_c::matching::z_closure_matching_status_loan;
use wz_capi_c::matching::z_internal_closure_matching_status_check;
use wz_capi_c::matching::z_internal_matching_listener_check;
use wz_capi_c::matching::z_matching_listener_drop;
use wz_capi_c::matching::z_matching_status_t;
use wz_capi_c::matching::z_owned_matching_listener_t;
use wz_capi_c::matching::z_publisher_declare_background_matching_listener;
use wz_capi_c::matching::z_publisher_declare_matching_listener;
use wz_capi_c::matching::z_publisher_get_matching_status;
use wz_capi_c::matching::z_undeclare_matching_listener;
use wz_capi_c::matching::ze_advanced_publisher_declare_background_matching_listener;
use wz_capi_c::matching::ze_advanced_publisher_get_matching_status;
use wz_capi_c::matching::AdvancedPublisherState;
use wz_capi_c::matching::MatchingHold;
use wz_capi_c::matching::MatchingScope;
use wz_capi_c::meta::z_entity_global_id_t;
use wz_capi_c::meta::z_id_t;
use wz_capi_c::meta::z_source_info_t;
use wz_capi_c::meta::z_timestamp_t;
use wz_capi_c::meta::EncodingHint;
use wz_capi_c::publisher::congestion_from_c;
use wz_capi_c::publisher::priority_from_c;
use wz_capi_c::publisher::publisher_put_options;
use wz_capi_c::publisher::resolve_publisher_options;
use wz_capi_c::publisher::z_declare_publisher;
use wz_capi_c::publisher::z_internal_publisher_check;
use wz_capi_c::publisher::z_owned_publisher_t;
use wz_capi_c::publisher::z_publisher_delete;
use wz_capi_c::publisher::z_publisher_id;
use wz_capi_c::publisher::z_publisher_keyexpr;
use wz_capi_c::publisher::z_publisher_options_default;
use wz_capi_c::publisher::z_publisher_options_t;
use wz_capi_c::publisher::z_publisher_put;
use wz_capi_c::publisher::z_publisher_put_options_t;
use wz_capi_c::publisher::z_undeclare_publisher;
use wz_capi_c::publisher::PublishTarget;
use wz_capi_c::publisher::ZC_LOCALITY_ANY;
use wz_capi_c::publisher::ZC_LOCALITY_REMOTE;
use wz_capi_c::publisher::ZC_LOCALITY_SESSION_LOCAL;
use wz_capi_c::publisher::Z_CONGESTION_CONTROL_BLOCK;
use wz_capi_c::publisher::Z_CONGESTION_CONTROL_DROP;
use wz_capi_c::publisher::Z_PRIORITY_DATA;
use wz_capi_c::publisher::Z_RELIABILITY_RELIABLE;
use wz_capi_c::put::delete_options;
use wz_capi_c::put::put_options;
use wz_capi_c::put::resolve_put_options;
use wz_capi_c::put::z_delete;
use wz_capi_c::put::z_put;
use wz_capi_c::put::z_put_options_t;
use wz_capi_c::qos::CongestionControl;
use wz_capi_c::qos::Locality;
use wz_capi_c::qos::SampleKind;
use wz_capi_c::result::Z_EINVAL;
use wz_capi_c::result::Z_ENULL;
use wz_capi_c::result::Z_OK;
use wz_capi_c::session::z_owned_session_t;
use wz_capi_c::session::SessionState;

fn key(text: &str) -> z_owned_keyexpr_t {
    Owned::from_state(KeyexprState::new(text.to_string()))
}

fn session() -> z_owned_session_t {
    Owned::from_state(SessionState {
        shared: 7,
        closed: false,
    })
}

fn payload(bytes: &[u8]) -> Moved<BytesState> {
    Moved {
        _this: Owned::from_state(BytesState::whole(bytes.to_vec())),
    }
}

fn nothing<T>() -> Moved<T> {
    Moved {
        _this: Owned::null_value(),
    }
}

fn publisher(text: &str) -> z_owned_publisher_t {
    let mut slot: z_owned_publisher_t = Owned::null_value();
    assert_eq!(
        z_declare_publisher(Some(&session()), Some(&mut slot), Some(&key(text)), None, &|_: &str| true),
        Z_OK
    );
    slot
}

/// A publisher's locality is declared once, and every value of it is kept.
#[test]
fn publisher_options_carry_the_callers_allowed_destination() {
    for (c_value, expected) in [
        (ZC_LOCALITY_ANY, Locality::Any),
        (ZC_LOCALITY_SESSION_LOCAL, Locality::SessionLocal),
        (ZC_LOCALITY_REMOTE, Locality::Remote),
    ] {
        let mut o = z_publisher_options_t {
            encoding: nothing(),
            congestion_control: Z_CONGESTION_CONTROL_DROP,
            priority: Z_PRIORITY_DATA,
            is_express: false,
            reliability: Z_RELIABILITY_RELIABLE,
            allowed_destination: c_value,
        };
        let resolved = resolve_publisher_options(Some(&mut o));
        assert_eq!(
            resolved.allowed_destination, expected,
            "z_publisher_options_t.allowed_destination = {c_value} -> {expected:?}",
        );
    }
}

/// Nothing that is published without being asked for is delivered to the session
/// itself.
#[test]
fn every_publish_this_crate_issues_is_remote_only() {
    for (label, opts) in [
        ("z_put default", put_options()),
        ("z_delete default", delete_options()),
        ("z_publisher_put default", publisher_put_options()),
    ] {
        assert_eq!(
            opts.allowed_destination,
            Locality::Remote,
            "{label}: a local-capable publish",
        );
        assert!(
            !opts.allowed_destination.allows_local(),
            "{label}: allows_local() must stay false",
        );
    }

    // A caller cannot ask for it either.
    let mut o = z_put_options_t {
        encoding: nothing(),
        congestion_control: Z_CONGESTION_CONTROL_DROP,
        priority: Z_PRIORITY_DATA,
        is_express: false,
        timestamp: None,
        reliability: Z_RELIABILITY_RELIABLE,
        allowed_destination: ZC_LOCALITY_SESSION_LOCAL,
        source_info: None,
        attachment: nothing(),
    };
    let resolved = resolve_put_options(Some(&mut o));
    assert!(
        !resolved.allowed_destination.allows_local(),
        "z_put_options_t.allowed_destination is read and not used",
    );
}

#[test]
fn a_put_carries_its_payload_and_options() {
    let stamp = z_timestamp_t {
        time: 12,
        id: [3; 16],
    };
    let mut o = z_put_options_t {
        encoding: Moved {
            _this: Owned::from_state(EncodingHint {
                packed_id: 8,
                schema: Some(vec![1]),
            }),
        },
        congestion_control: Z_CONGESTION_CONTROL_BLOCK,
        priority: 2,
        is_express: true,
        timestamp: Some(stamp),
        reliability: Z_RELIABILITY_RELIABLE,
        allowed_destination: ZC_LOCALITY_ANY,
        source_info: None,
        attachment: payload(b"at"),
    };
    let mut body = payload(b"body");
    let mut seen = None;
    let code = z_put(
        Some(&session()),
        Some(&key("a/b")),
        Some(&mut body),
        Some(&mut o),
        |request| {
            seen = Some(request);
            true
        },
    );
    assert_eq!(code, Z_OK);
    let request = seen.unwrap();
    assert_eq!(request.session, 7);
    assert!(matches!(request.target, PublishTarget::Key(ref k) if k == "a/b"));
    assert_eq!(request.payload, b"body");
    assert_eq!(request.options.kind, SampleKind::Put);
    assert_eq!(request.options.priority, 2);
    assert!(request.options.express);
    assert_eq!(request.options.congestion_control, CongestionControl::Block);
    assert_eq!(request.options.attachment, Some(b"at".to_vec()));
    assert_eq!(request.options.encoding.unwrap().packed_id, 8);
    assert!(body._this.state.is_none() && o.attachment._this.state.is_none());
}

#[test]
fn a_put_that_cannot_be_made_still_consumes_its_payload() {
    let mut body = payload(b"body");
    let code = z_put(None, Some(&key("a")), Some(&mut body), None, |_| {
        panic!("nothing can be published")
    });
    assert_eq!(code, Z_ENULL);
    assert!(body._this.state.is_none());
    let mut body = payload(b"body");
    let code = z_put(Some(&session()), Some(&key("a")), Some(&mut body), None, |_| false);
    assert_eq!(code, Z_EINVAL);
}

#[test]
fn a_delete_publishes_an_empty_payload() {
    let mut seen = None;
    let code = z_delete(Some(&session()), Some(&key("a/b")), None, |request| {
        seen = Some(request);
        true
    });
    assert_eq!(code, Z_OK);
    let request = seen.unwrap();
    assert_eq!(request.options.kind, SampleKind::Del);
    assert!(request.payload.is_empty());
}

#[test]
fn a_publisher_puts_with_what_it_was_declared_with() {
    let mut o = z_publisher_options_t {
        encoding: nothing(),
        congestion_control: Z_CONGESTION_CONTROL_BLOCK,
        priority: 3,
        is_express: true,
        reliability: Z_RELIABILITY_RELIABLE,
        allowed_destination: ZC_LOCALITY_REMOTE,
    };
    let mut slot: z_owned_publisher_t = Owned::null_value();
    assert_eq!(
        z_declare_publisher(
            Some(&session()),
            Some(&mut slot),
            Some(&key("p/q")),
            Some(&mut o),
            &|_: &str| true
        ),
        Z_OK
    );
    assert_eq!(keyexpr_str(z_publisher_keyexpr(Some(&slot))), Some("p/q"));
    let mut per_put = z_publisher_put_options_t {
        encoding: nothing(),
        timestamp: None,
        source_info: Some(z_source_info_t {
            zid: [2; 16],
            eid: 4,
            sn: 5,
        }),
        attachment: payload(b"att"),
    };
    let mut body = payload(b"v");
    let mut seen = None;
    let code = z_publisher_put(Some(&slot), Some(&mut body), Some(&mut per_put), |request| {
        seen = Some(request);
        true
    });
    assert_eq!(code, Z_OK);
    let request = seen.unwrap();
    assert_eq!(request.options.priority, 3);
    assert!(request.options.express);
    assert_eq!(request.options.attachment, Some(b"att".to_vec()));
    assert_eq!(request.options.source_info.unwrap().sn, 5);

    let mut seen = None;
    assert_eq!(
        z_publisher_delete(Some(&slot), None, |request| {
            seen = Some(request);
            true
        }),
        Z_OK
    );
    assert_eq!(seen.unwrap().options.kind, SampleKind::Del);

    let mut moved = Moved { _this: slot };
    assert_eq!(z_undeclare_publisher(Some(&mut moved)), (Z_OK, None));
    assert!(!z_internal_publisher_check(Some(&moved._this)));
    let mut body = payload(b"v");
    assert_eq!(
        z_publisher_put(Some(&moved._this), Some(&mut body), None, |_| true),
        Z_ENULL
    );
    assert!(body._this.state.is_none());
}

#[test]
fn a_text_that_may_not_go_out_is_not_declared() {
    let mut slot: z_owned_publisher_t = publisher("left/over");
    let code = z_declare_publisher(
        Some(&session()),
        Some(&mut slot),
        Some(&key("$*")),
        None,
        &|t: &str| t != "$*",
    );
    assert_eq!(code, Z_EINVAL);
    assert!(slot.state.is_none());
    assert_eq!(
        z_declare_publisher(None, Some(&mut slot), Some(&key("a")), None, &|_: &str| true),
        Z_ENULL
    );
}

#[test]
fn numbers_of_the_interface_are_read_as_they_are_meant() {
    let mut o = z_publisher_options_t {
        encoding: nothing(),
        congestion_control: 99,
        priority: 99,
        is_express: true,
        reliability: 99,
        allowed_destination: 99,
    };
    z_publisher_options_default(Some(&mut o));
    assert_eq!(o.congestion_control, Z_CONGESTION_CONTROL_DROP);
    assert_eq!(o.priority, 5);
    assert_eq!(congestion_from_c(0), CongestionControl::Block);
    assert_eq!(congestion_from_c(1), CongestionControl::Drop);
    assert_eq!(priority_from_c(7), 7);
}

#[test]
fn an_entity_is_named_by_its_session_and_its_handle() {
    let slot = publisher("a");
    let named = |s: u64, a: usize| z_entity_global_id_t {
        zid: z_id_t { id: [s as u8; 16] },
        eid: a as u32,
    };
    let id = z_publisher_id(Some(&slot), 11, named);
    assert_eq!((id.zid.id, id.eid), ([7; 16], 11));
    let id = z_publisher_id(None, 11, named);
    assert_eq!((id.zid.id, id.eid), ([0; 16], 0));
}

fn listener() -> MovedClosure {
    MovedClosure {
        _this: CClosure {
            context: 3,
            call: Some(1),
            drop: Some(2),
        },
    }
}

#[test]
fn a_second_background_listener_supersedes_the_first() {
    let mut slot = publisher("a/b");
    let mut closure = listener();
    let first = z_publisher_declare_background_matching_listener(
        Some(&mut slot),
        Some(&mut closure),
        |d| {
            assert_eq!((d.session, d.keyexpr.as_str()), (7, "a/b"));
            assert_eq!(d.scope, MatchingScope::Subscribers);
            assert_eq!(d.closure.context, 3);
            20
        },
    );
    assert_eq!((first.code, first.retired), (Z_OK, None));
    assert!(first.due.is_none() && closure._this.call.is_none());
    let mut closure = listener();
    let second = z_publisher_declare_background_matching_listener(
        Some(&mut slot),
        Some(&mut closure),
        |_| 21,
    );
    assert_eq!(second.retired, Some(MatchingHold::new(7, 20)));
    let mut moved = Moved { _this: slot };
    assert_eq!(
        z_undeclare_publisher(Some(&mut moved)),
        (Z_OK, Some(MatchingHold::new(7, 21)))
    );
    let mut closure = listener();
    let dead = z_publisher_declare_background_matching_listener(
        Some(&mut moved._this),
        Some(&mut closure),
        |_| 22,
    );
    assert_eq!(dead.code, Z_ENULL);
    assert_eq!(dead.due, Some(DropCall { drop: 2, context: 3 }));
    assert!(closure._this.drop.is_none());
    let null = z_publisher_declare_background_matching_listener(None, None, |_| 22);
    assert_eq!((null.code, null.due), (Z_ENULL, None));
}

#[test]
fn an_owned_listener_is_retracted_once() {
    let slot = publisher("a/b");
    let mut closure = listener();
    let mut owned: z_owned_matching_listener_t = Owned::null_value();
    assert_eq!(
        z_publisher_declare_matching_listener(
            Some(&slot),
            Some(&mut owned),
            Some(&mut closure),
            |_| 40
        ),
        (Z_OK, None)
    );
    assert!(z_internal_matching_listener_check(Some(&owned)));
    let mut moved = Moved { _this: owned };
    assert_eq!(
        z_undeclare_matching_listener(Some(&mut moved)),
        (Z_OK, Some(MatchingHold::new(7, 40)))
    );
    assert_eq!(z_matching_listener_drop(Some(&mut moved)), None);

    let mut closure = listener();
    let mut owned: z_owned_matching_listener_t = Owned::null_value();
    assert_eq!(
        z_publisher_declare_matching_listener(None, Some(&mut owned), Some(&mut closure), |_| 40),
        (Z_ENULL, Some(DropCall { drop: 2, context: 3 }))
    );
    let mut kept = listener();
    assert_eq!(
        z_publisher_declare_matching_listener(Some(&slot), None, Some(&mut kept), |_| 40),
        (Z_ENULL, None)
    );
    assert_eq!(kept._this.call, Some(1));
}

#[test]
fn a_poll_answers_false_where_nobody_is_asked() {
    let slot = publisher("a/b");
    let mut status = z_matching_status_t { matching: false };
    let code = z_publisher_get_matching_status(Some(&slot), Some(&mut status), |s, t: &str, scope| {
        (s, t, scope) == (7, "a/b", MatchingScope::Subscribers)
    });
    assert_eq!(code, Z_OK);
    assert!(status.matching);
    let code = z_publisher_get_matching_status(None, Some(&mut status), |_, _: &str, _| true);
    assert_eq!(code, Z_ENULL);
    assert!(!status.matching);
    assert_eq!(
        z_publisher_get_matching_status(Some(&slot), None, |_, _: &str, _| true),
        Z_ENULL
    );
}

#[test]
fn an_advanced_publisher_keeps_its_listener() {
    let advanced = Owned::from_state(AdvancedPublisherState {
        shared: 9,
        keyexpr: "adv".to_string(),
    });
    let mut closure = listener();
    let kept = ze_advanced_publisher_declare_background_matching_listener(
        Some(&advanced),
        Some(&mut closure),
        |d| {
            assert_eq!((d.session, d.keyexpr.as_str()), (9, "adv"));
            50
        },
    );
    assert_eq!(kept.code, Z_OK);
    assert_eq!(kept.hold, Some(MatchingHold::new(9, 50)));
    let mut status = z_matching_status_t { matching: true };
    let code =
        ze_advanced_publisher_get_matching_status(Some(&advanced), Some(&mut status), |_, t: &str, _| {
            t != "adv"
        });
    assert_eq!((code, status.matching), (Z_OK, false));
}

#[test]
fn a_matching_status_closure_calls_with_its_status() {
    let mut closure = CClosure::null_value();
    assert!(!z_internal_closure_matching_status_check(Some(&closure)));
    assert!(z_closure_matching_status_call(Some(&closure), None).is_none());
    z_closure_matching_status(Some(&mut closure), Some(1), Some(2), 3);
    assert!(z_internal_closure_matching_status_check(Some(&closure)));
    let status = z_matching_status_t { matching: true };
    let due = z_closure_matching_status_call(
        z_closure_matching_status_loan(Some(&closure)),
        Some(&status),
    )
    .unwrap();
    assert_eq!((due.invocation.call, due.invocation.context), (1, 3));
    assert_eq!(due.status, Some(status));
    assert_eq!(
        matching_sink(&closure, false).unwrap().status,
        Some(z_matching_status_t { matching: false })
    );
    let mut moved = MovedClosure { _this: closure };
    assert_eq!(
        z_closure_matching_status_drop(Some(&mut moved)),
        Some(DropCall { drop: 2, context: 3 })
    );
    assert_eq!(z_closure_matching_status_drop(Some(&mut moved)), None);
}
