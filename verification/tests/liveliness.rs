use wz_capi_c::closure::CClosure;
use wz_capi_c::closure::DropCall;
use wz_capi_c::closure::MovedClosure;
use wz_capi_c::handle::Moved;
use wz_capi_c::handle::Owned;
use wz_capi_c::keyexpr::keyexpr_str;
use wz_capi_c::keyexpr::z_owned_keyexpr_t;
use wz_capi_c::keyexpr::KeyexprState;
use wz_capi_c::liveliness::liveliness_delivery;
use wz_capi_c::liveliness::z_internal_liveliness_token_check;
use wz_capi_c::liveliness::z_liveliness_declare_subscriber;
use wz_capi_c::liveliness::z_liveliness_declare_token;
use wz_capi_c::liveliness::z_liveliness_get;
use wz_capi_c::liveliness::z_liveliness_get_options_default;
use wz_capi_c::liveliness::z_liveliness_get_options_t;
use wz_capi_c::liveliness::z_liveliness_subscriber_options_default;
use wz_capi_c::liveliness::z_liveliness_subscriber_options_t;
use wz_capi_c::liveliness::z_liveliness_token_drop;
use wz_capi_c::liveliness::z_liveliness_token_loan;
use wz_capi_c::liveliness::z_liveliness_token_options_default;
use wz_capi_c::liveliness::z_liveliness_token_options_t;
use wz_capi_c::liveliness::z_liveliness_undeclare_token;
use wz_capi_c::liveliness::z_owned_liveliness_token_t;
use wz_capi_c::liveliness::z_owned_subscriber_t;
use wz_capi_c::liveliness::TokenState;
use wz_capi_c::qos::SampleKind;
use wz_capi_c::result::Z_EINVAL;
use wz_capi_c::result::Z_ENULL;
use wz_capi_c::result::Z_EUNAVAILABLE;
use wz_capi_c::result::Z_OK;
use wz_capi_c::sample::z_sample_attachment;
use wz_capi_c::sample::z_sample_keyexpr;
use wz_capi_c::sample::z_sample_kind;
use wz_capi_c::sample::z_sample_payload;
use wz_capi_c::sample::Z_SAMPLE_KIND_DELETE;
use wz_capi_c::sample::Z_SAMPLE_KIND_PUT;
use wz_capi_c::session::z_owned_session_t;
use wz_capi_c::session::SessionState;

fn key(text: &str) -> z_owned_keyexpr_t {
    Owned::from_state(KeyexprState::new(text.to_string()))
}

fn session() -> z_owned_session_t {
    Owned::from_state(SessionState {
        shared: 7,
        closed: false,
    })
}

fn handler() -> MovedClosure {
    MovedClosure {
        _this: CClosure {
            context: 3,
            call: Some(1),
            drop: Some(2),
        },
    }
}

fn dropped() -> Option<DropCall> {
    Some(DropCall {
        drop: 2,
        context: 3,
    })
}

#[test]
fn dropping_a_token_retracts_it_once() {
    let mut token: z_owned_liveliness_token_t = Owned::null_value();
    let code = z_liveliness_declare_token(
        Some(&session()),
        Some(&mut token),
        Some(&key("group/a")),
        None,
        &|_: &str| true,
        |s, k: String| {
            assert_eq!((s, k.as_str()), (7, "group/a"));
            Some(12)
        },
    );
    assert_eq!(code, Z_OK);
    assert!(z_internal_liveliness_token_check(z_liveliness_token_loan(Some(&token))));
    let mut moved = Moved { _this: token };
    assert_eq!(
        z_liveliness_token_drop(Some(&mut moved)),
        Some(TokenState { shared: 7, id: 12 })
    );
    assert_eq!(z_liveliness_undeclare_token(Some(&mut moved)), (Z_OK, None));
    assert_eq!(z_liveliness_undeclare_token(None), (Z_OK, None));
}

#[test]
fn a_token_that_cannot_be_declared_leaves_a_gravestone() {
    let live = || {
        Owned::from_state(TokenState { shared: 1, id: 1 })
    };
    let mut token: z_owned_liveliness_token_t = live();
    let declare = |outbound: bool, id: Option<u64>, token: &mut z_owned_liveliness_token_t| {
        z_liveliness_declare_token(
            Some(&session()),
            Some(token),
            Some(&key("a")),
            None,
            &|_: &str| outbound,
            |_, _: String| id,
        )
    };
    assert_eq!(declare(false, Some(1), &mut token), Z_EINVAL);
    assert!(token.state.is_none());
    let mut token = live();
    assert_eq!(declare(true, None, &mut token), Z_EUNAVAILABLE);
    assert!(token.state.is_none());
    let mut token = live();
    assert_eq!(
        z_liveliness_declare_token(
            None,
            Some(&mut token),
            Some(&key("a")),
            None,
            &|_: &str| true,
            |_, _: String| Some(1)
        ),
        Z_ENULL
    );
    assert!(token.state.is_none());
}

#[test]
fn a_token_is_told_of_as_an_ordinary_sample() {
    let closure = handler()._this;
    for (kind, number) in [
        (SampleKind::Put, Z_SAMPLE_KIND_PUT),
        (SampleKind::Del, Z_SAMPLE_KIND_DELETE),
    ] {
        let due = liveliness_delivery(&closure, "group/a", kind).unwrap();
        assert_eq!(due.invocation.context, 3);
        let sample = Some(&due.sample);
        assert_eq!(z_sample_kind(sample), number);
        assert_eq!(keyexpr_str(z_sample_keyexpr(sample)), Some("group/a"));
        assert!(z_sample_payload(sample).unwrap().state.as_ref().unwrap().payload.is_empty());
        assert!(z_sample_attachment(sample).is_none());
    }
    assert!(liveliness_delivery(&CClosure::null_value(), "group/a", SampleKind::Put).is_none());
}

#[test]
fn a_subscription_to_tokens_takes_its_history_from_the_options() {
    for (options, history) in [
        (None, false),
        (Some(z_liveliness_subscriber_options_t { history: true }), true),
    ] {
        let mut closure = handler();
        let mut slot: z_owned_subscriber_t = Owned::null_value();
        let r = z_liveliness_declare_subscriber(
            Some(&session()),
            Some(&mut slot),
            Some(&key("group/**")),
            Some(&mut closure),
            options.as_ref(),
            &|_: &str| true,
            |d| {
                assert_eq!(d.history, history);
                assert_eq!(d.keyexpr, "group/**");
                14
            },
        );
        assert_eq!(r, (Z_OK, None));
        assert_eq!(slot.state.unwrap().id, 14);
    }
    let mut closure = handler();
    let mut slot: z_owned_subscriber_t = Owned::null_value();
    let r = z_liveliness_declare_subscriber(
        Some(&session()),
        Some(&mut slot),
        Some(&key("group/**")),
        Some(&mut closure),
        None,
        &|_: &str| false,
        |_| 14,
    );
    assert_eq!(r, (Z_EINVAL, dropped()));
    let mut closure = handler();
    let r = z_liveliness_declare_subscriber(
        Some(&session()),
        Some(&mut slot),
        None,
        Some(&mut closure),
        None,
        &|_: &str| true,
        |_| 14,
    );
    assert_eq!(r, (Z_ENULL, dropped()));
}

#[test]
fn the_tokens_alive_are_asked_for_on_every_face() {
    let mut closure = handler();
    let options = z_liveliness_get_options_t {
        timeout_ms: 1 << 40,
    };
    let r = z_liveliness_get(
        Some(&session()),
        Some(&key("group/**")),
        Some(&mut closure),
        Some(&options),
        &vec![4, 5],
        &|_: &str| true,
    );
    assert_eq!((r.code, r.due), (Z_OK, None));
    let faces: Vec<u64> = r.requests.iter().map(|request| request.face).collect();
    assert_eq!(faces, [4, 5]);
    for request in &r.requests {
        assert_eq!(request.keyexpr, "group/**");
        assert_eq!(request.timeout_ms, u32::MAX);
        assert_eq!(request.gate.query_keyexpr, "group/**");
        assert!(!request.gate.anyke);
    }
    // With nobody to ask, the get is over at once.
    let mut closure = handler();
    let r = z_liveliness_get(
        Some(&session()),
        Some(&key("group/**")),
        Some(&mut closure),
        None,
        &vec![],
        &|_: &str| true,
    );
    assert_eq!((r.code, r.due), (Z_OK, dropped()));
    let mut closure = handler();
    let r = z_liveliness_get(
        Some(&session()),
        Some(&key("group/**")),
        Some(&mut closure),
        None,
        &vec![4],
        &|_: &str| false,
    );
    assert_eq!((r.code, r.due), (Z_EINVAL, dropped()));
    assert!(r.requests.is_empty());
    let r = z_liveliness_get(None, None, None, None, &vec![4], &|_: &str| true);
    assert_eq!((r.code, r.due), (Z_ENULL, None));
}

#[test]
fn the_liveliness_options_have_their_defaults() {
    let mut token = z_liveliness_token_options_t { _dummy: 9 };
    z_liveliness_token_options_default(Some(&mut token));
    assert_eq!(token._dummy, 0);
    let mut sub = z_liveliness_subscriber_options_t { history: true };
    z_liveliness_subscriber_options_default(Some(&mut sub));
    assert!(!sub.history);
    let mut get = z_liveliness_get_options_t { timeout_ms: 9 };
    z_liveliness_get_options_default(Some(&mut get));
    assert_eq!(get.timeout_ms, 0);
}
