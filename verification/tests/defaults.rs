use wz_capi_c::bytes::BytesState;
use wz_capi_c::closure::CClosure;
use wz_capi_c::closure::DropCall;
use wz_capi_c::closure::MovedClosure;
use wz_capi_c::handle::Moved;
use wz_capi_c::handle::Owned;
use wz_capi_c::keyexpr::keyexpr_str;
use wz_capi_c::keyexpr::z_internal_keyexpr_null;
use wz_capi_c::keyexpr::z_keyexpr_from_substr_autocanonize;
use wz_capi_c::keyexpr::z_owned_keyexpr_t;
use wz_capi_c::keyexpr::z_view_keyexpr_empty;
use wz_capi_c::keyexpr::z_view_keyexpr_from_str_autocanonize;
use wz_capi_c::keyexpr::z_view_keyexpr_from_substr_autocanonize;
use wz_capi_c::keyexpr::z_view_keyexpr_from_substr_unchecked;
use wz_capi_c::keyexpr::z_view_keyexpr_t;
use wz_capi_c::liveliness::z_internal_liveliness_token_null;
use wz_capi_c::liveliness::TokenState;
use wz_capi_c::matching::z_internal_closure_matching_status_null;
use wz_capi_c::matching::z_internal_matching_listener_null;
use wz_capi_c::matching::ListenerState;
use wz_capi_c::meta::z_entity_global_id_t;
use wz_capi_c::meta::EncodingHint;
use wz_capi_c::publisher::z_internal_congestion_control_default_push;
use wz_capi_c::publisher::z_internal_congestion_control_default_request;
use wz_capi_c::publisher::z_internal_publisher_null;
use wz_capi_c::publisher::z_locality_default;
use wz_capi_c::publisher::z_priority_default;
use wz_capi_c::publisher::z_publisher_delete_options_default;
use wz_capi_c::publisher::z_publisher_delete_options_t;
use wz_capi_c::publisher::z_publisher_put_options_default;
use wz_capi_c::publisher::z_publisher_put_options_t;
use wz_capi_c::publisher::z_reliability_default;
use wz_capi_c::publisher::zc_locality_default;
use wz_capi_c::put::z_delete_options_default;
use wz_capi_c::put::z_delete_options_t;
use wz_capi_c::put::z_put_options_default;
use wz_capi_c::put::z_put_options_t;
use wz_capi_c::query::begin_dispatch;
use wz_capi_c::query::end_dispatch;
use wz_capi_c::query::z_closure_query;
use wz_capi_c::query::z_closure_query_drop;
use wz_capi_c::query::z_internal_query_null;
use wz_capi_c::query::z_internal_queryable_check;
use wz_capi_c::query::z_internal_queryable_null;
use wz_capi_c::query::z_owned_query_t;
use wz_capi_c::query::z_owned_queryable_t;
use wz_capi_c::query::z_query_accepts_replies;
use wz_capi_c::query::z_query_attachment_mut;
use wz_capi_c::query::z_query_payload;
use wz_capi_c::query::z_query_payload_mut;
use wz_capi_c::query::z_query_reply_del_options_default;
use wz_capi_c::query::z_query_reply_del_options_t;
use wz_capi_c::query::z_query_reply_err_options_default;
use wz_capi_c::query::z_query_reply_err_options_t;
use wz_capi_c::query::z_query_take_from_loaned;
use wz_capi_c::query::z_queryable_drop;
use wz_capi_c::query::z_queryable_id;
use wz_capi_c::query::z_queryable_loan;
use wz_capi_c::query::QueryMarshal;
use wz_capi_c::query::QueryView;
use wz_capi_c::result::Z_EINVAL;
use wz_capi_c::result::Z_ENULL;
use wz_capi_c::result::Z_OK;
use wz_capi_c::sample::z_internal_sample_null;
use wz_capi_c::sample::SampleMarshal;
use wz_capi_c::serde::ze_internal_serializer_null;
use wz_capi_c::serde::ze_serializer_loan;
use wz_capi_c::serde::WriterState;
use wz_capi_c::session::z_internal_session_null;
use wz_capi_c::session::SessionState;
use wz_capi_c::slice::owned_slice_from;
use wz_capi_c::slice::z_internal_slice_null;
use wz_capi_c::slice::z_slice_data;
use wz_capi_c::slice::z_slice_empty;
use wz_capi_c::slice::z_view_slice_empty;

fn nothing<T>() -> Moved<T> {
    Moved {
        _this: Owned::null_value(),
    }
}

fn something() -> Moved<BytesState> {
    Moved {
        _this: Owned::from_state(BytesState::whole(vec![1])),
    }
}

fn encoded() -> Moved<EncodingHint> {
    Moved {
        _this: Owned::from_state(EncodingHint {
            packed_id: 2,
            schema: None,
        }),
    }
}

#[test]
fn a_publication_is_droppable_and_of_ordinary_priority_by_default() {
    assert_eq!(z_internal_congestion_control_default_push(), 1);
    assert_eq!(z_internal_congestion_control_default_request(), 0);
    assert_eq!(z_priority_default(), 5);
    assert_eq!(z_reliability_default(), 1);
    assert_eq!(zc_locality_default(), 0);
    assert_eq!(z_locality_default(), 0);

    let mut put = z_put_options_t {
        encoding: encoded(),
        congestion_control: 9,
        priority: 9,
        is_express: true,
        timestamp: None,
        reliability: 9,
        allowed_destination: 9,
        source_info: None,
        attachment: something(),
    };
    z_put_options_default(Some(&mut put));
    assert_eq!((put.congestion_control, put.priority), (1, 5));
    assert_eq!((put.is_express, put.reliability), (false, 1));
    assert_eq!(put.allowed_destination, 0);
    assert!(put.encoding._this.state.is_none() && put.attachment._this.state.is_none());

    let mut delete = z_delete_options_t {
        congestion_control: 9,
        priority: 9,
        is_express: true,
        timestamp: None,
        reliability: 9,
        allowed_destination: 9,
    };
    z_delete_options_default(Some(&mut delete));
    assert_eq!((delete.congestion_control, delete.priority), (1, 5));

    let mut publisher_put = z_publisher_put_options_t {
        encoding: encoded(),
        timestamp: None,
        source_info: None,
        attachment: something(),
    };
    z_publisher_put_options_default(Some(&mut publisher_put));
    assert!(publisher_put.encoding._this.state.is_none());
    let mut publisher_delete = z_publisher_delete_options_t { timestamp: None };
    z_publisher_delete_options_default(Some(&mut publisher_delete));
    assert!(publisher_delete.timestamp.is_none());
}

#[test]
fn a_reply_has_its_defaults() {
    let mut del = z_query_reply_del_options_t {
        congestion_control: 9,
        priority: 9,
        is_express: true,
        timestamp: None,
        source_info: None,
        attachment: something(),
    };
    z_query_reply_del_options_default(Some(&mut del));
    assert!(!del.is_express && del.attachment._this.state.is_none());
    let mut err = z_query_reply_err_options_t { encoding: encoded() };
    z_query_reply_err_options_default(Some(&mut err));
    assert!(err.encoding._this.state.is_none());
}

#[test]
fn every_handle_can_be_made_a_gravestone() {
    let mut keyexpr: z_owned_keyexpr_t = Owned::null_value();
    z_view_keyexpr_from_substr_unchecked(Some(&mut keyexpr), Some(&b"a/b/c"[..]), 3);
    assert_eq!(keyexpr_str(Some(&keyexpr)), Some("a/b"));
    z_internal_keyexpr_null(Some(&mut keyexpr));
    assert!(keyexpr.state.is_none());
    z_view_keyexpr_from_substr_unchecked(Some(&mut keyexpr), Some(&b"a"[..]), 1);
    z_view_keyexpr_empty(Some(&mut keyexpr));
    assert!(keyexpr.state.is_none());

    let mut token = Owned::from_state(TokenState { shared: 1, id: 1 });
    z_internal_liveliness_token_null(Some(&mut token));
    assert!(token.state.is_none());
    let mut listener = Owned::from_state(ListenerState { shared: 1, id: 1 });
    z_internal_matching_listener_null(Some(&mut listener));
    assert!(listener.state.is_none());
    let mut closure = CClosure {
        context: 1,
        call: Some(1),
        drop: Some(1),
    };
    z_internal_closure_matching_status_null(Some(&mut closure));
    assert_eq!(closure, CClosure::null_value());
    let mut session = Owned::from_state(SessionState {
        shared: 1,
        closed: false,
    });
    z_internal_session_null(Some(&mut session));
    assert!(session.state.is_none());
    let mut sample = Owned::from_state(SampleMarshal::new("a".to_string(), vec![], None, 0, None));
    z_internal_sample_null(Some(&mut sample));
    assert!(sample.state.is_none());
    let mut writer = Owned::from_state(WriterState { buf: vec![1] });
    assert!(ze_serializer_loan(Some(&writer)).is_some());
    ze_internal_serializer_null(Some(&mut writer));
    assert!(writer.state.is_none());
    z_internal_publisher_null(None);

    let mut slice = owned_slice_from(&[1]);
    z_internal_slice_null(Some(&mut slice));
    assert_eq!(z_slice_data(Some(&slice)), None);
    let mut slice = owned_slice_from(&[1]);
    z_slice_empty(Some(&mut slice));
    assert_ne!(z_slice_data(Some(&slice)), Some(&[1u8][..]));
    let bytes = [1u8];
    let mut view = wz_capi_c::slice::view_slice_over(&bytes);
    z_view_slice_empty(Some(&mut view));
    assert_ne!(z_slice_data(Some(&view)), Some(&bytes[..]));
}

fn doubled(text: &str) -> Option<String> {
    if text.contains("//") {
        None
    } else {
        Some(text.replace("**/**", "**"))
    }
}

#[test]
fn a_view_that_is_canonized_rewrites_its_buffer() {
    let mut view: z_view_keyexpr_t = Owned::null_value();
    let mut buffer = b"a/**/**\0#".to_vec();
    assert_eq!(
        z_view_keyexpr_from_str_autocanonize(Some(&mut view), Some(&mut buffer), &doubled),
        Z_OK
    );
    assert_eq!(keyexpr_str(Some(&view)), Some("a/**"));
    assert_eq!(buffer[..5], b"a/**\0"[..]);

    let mut buffer = b"a/**/**#".to_vec();
    let mut len = 7usize;
    assert_eq!(
        z_view_keyexpr_from_substr_autocanonize(
            Some(&mut view),
            Some(&mut buffer),
            Some(&mut len),
            &doubled
        ),
        Z_OK
    );
    assert_eq!((len, keyexpr_str(Some(&view))), (4, Some("a/**")));
    let mut buffer = b"a//b#".to_vec();
    let mut len = 4usize;
    assert_eq!(
        z_view_keyexpr_from_substr_autocanonize(
            Some(&mut view),
            Some(&mut buffer),
            Some(&mut len),
            &doubled
        ),
        Z_EINVAL
    );
    assert!(view.state.is_none());
    assert_eq!(buffer, b"a//b#");

    // So does an owned one, and its length is read back.
    let mut owned: z_owned_keyexpr_t = Owned::null_value();
    let mut buffer = b"a/**/**#".to_vec();
    let mut len = 7usize;
    assert_eq!(
        z_keyexpr_from_substr_autocanonize(
            Some(&mut owned),
            Some(&mut buffer),
            Some(&mut len),
            &doubled
        ),
        Z_OK
    );
    assert_eq!((len, keyexpr_str(Some(&owned))), (4, Some("a/**")));
    assert_eq!(buffer, b"a/**/**#");
    let mut buffer = b"**/**/b#".to_vec();
    let mut len = 7usize;
    assert_eq!(
        z_keyexpr_from_substr_autocanonize(
            Some(&mut owned),
            Some(&mut buffer),
            Some(&mut len),
            &doubled
        ),
        Z_OK
    );
    assert_eq!((len, keyexpr_str(Some(&owned))), (4, Some("**/b")));
    assert_eq!(buffer, b"**/b*/b#");
    // One with no canonical form, or with no room for it, leaves all as it was.
    let mut buffer = b"a//b#".to_vec();
    let mut len = 4usize;
    assert_eq!(
        z_keyexpr_from_substr_autocanonize(
            Some(&mut owned),
            Some(&mut buffer),
            Some(&mut len),
            &doubled
        ),
        Z_EINVAL
    );
    assert!(owned.state.is_none());
    assert_eq!((len, &buffer[..]), (4, &b"a//b#"[..]));
    assert_eq!(
        z_keyexpr_from_substr_autocanonize(
            Some(&mut owned),
            Some(&mut buffer),
            Some(&mut len),
            &|text: &str| Some(text.repeat(2))
        ),
        Z_EINVAL
    );
    assert!(owned.state.is_none());
    assert_eq!((len, &buffer[..]), (4, &b"a//b#"[..]));
    assert_eq!(
        z_keyexpr_from_substr_autocanonize(Some(&mut owned), Some(&mut buffer), None, &doubled),
        Z_ENULL
    );
    assert_eq!(
        z_keyexpr_from_substr_autocanonize(Some(&mut owned), None, Some(&mut len), &doubled),
        Z_ENULL
    );
}

fn asked(parameters: &[u8]) -> QueryView {
    QueryView {
        keyexpr: "q".to_string(),
        parameters: Some(parameters.to_vec()),
        payload: Some(vec![1, 2]),
        attachment: None,
        encoding: None,
        source_info: None,
        rid: 3,
    }
}

#[test]
fn a_query_says_which_keys_it_takes_replies_under() {
    let any = QueryMarshal::new(&asked(b"x=1&_anyke"));
    let matching = QueryMarshal::new(&asked(b"x=1"));
    assert_ne!(
        z_query_accepts_replies(Some(&any)),
        z_query_accepts_replies(Some(&matching))
    );
    assert_eq!(
        z_query_accepts_replies(None),
        z_query_accepts_replies(Some(&matching))
    );
}

#[test]
fn a_query_can_be_taken_out_of_its_call() {
    let handler = CClosure {
        context: 0,
        call: Some(1),
        drop: None,
    };
    let mut marshal = begin_dispatch(&handler, &asked(b""), 5).unwrap().marshal;
    let mut owned: z_owned_query_t = Owned::null_value();
    z_query_take_from_loaned(Some(&mut owned), Some(&mut marshal));
    assert!(owned.state.is_some());
    assert_eq!(end_dispatch(marshal).holds, 1);
    // What has escaped does not escape again.
    let mut again: z_owned_query_t = Owned::null_value();
    z_query_take_from_loaned(Some(&mut again), owned.state.as_mut());
    assert!(again.state.is_none());
    z_internal_query_null(Some(&mut owned));
    assert!(owned.state.is_none());
}

#[test]
fn a_querys_payload_can_be_changed_in_place() {
    let mut marshal = QueryMarshal::new(&asked(b""));
    marshal.bind();
    z_query_payload_mut(Some(&mut marshal)).unwrap().state = Some(BytesState::whole(vec![9]));
    let payload = z_query_payload(Some(&marshal)).unwrap();
    assert_eq!(payload.state.as_ref().unwrap().payload, [9]);
    assert!(z_query_attachment_mut(Some(&mut marshal)).is_none());
}

#[test]
fn a_dead_queryable_has_no_name_and_nothing_to_retract() {
    let mut slot: z_owned_queryable_t = Owned::null_value();
    z_internal_queryable_null(Some(&mut slot));
    assert!(!z_internal_queryable_check(z_queryable_loan(Some(&slot))));
    let id: z_entity_global_id_t =
        z_queryable_id(Some(&slot), 4, |_, _| panic!("there is nothing to name"));
    assert_eq!((id.eid, id.zid.id), (0, [0; 16]));
    let mut moved = Moved { _this: slot };
    assert!(z_queryable_drop(Some(&mut moved)).is_none());

    let mut closure = CClosure::null_value();
    z_closure_query(Some(&mut closure), Some(1), Some(2), 3);
    let mut moved = MovedClosure { _this: closure };
    assert_eq!(
        z_closure_query_drop(Some(&mut moved)),
        Some(DropCall {
            drop: 2,
            context: 3
        })
    );
    assert!(nothing::<BytesState>()._this.state.is_none());
}
