use wz_capi_c::handle::Moved;
use wz_capi_c::handle::Owned;
use wz_capi_c::result::Z_EINVAL;
use wz_capi_c::result::Z_ENETWORK;
use wz_capi_c::result::Z_ENULL;
use wz_capi_c::result::Z_OK;
use wz_capi_c::session::dial_whatami;
use wz_capi_c::session::z_close;
use wz_capi_c::session::z_close_options_default;
use wz_capi_c::session::z_close_options_t;
use wz_capi_c::session::z_internal_session_check;
use wz_capi_c::session::z_open;
use wz_capi_c::session::z_open_options_default;
use wz_capi_c::session::z_open_options_t;
use wz_capi_c::session::z_owned_session_t;
use wz_capi_c::session::z_session_drop;
use wz_capi_c::session::z_session_is_closed;
use wz_capi_c::session::z_session_loan;
use wz_capi_c::session::z_session_loan_mut;
use wz_capi_c::session::zc_concurrent_close_handle_wait;
use wz_capi_c::session::zc_get_last_error;
use wz_capi_c::session::zc_internal_concurrent_close_handle_check;
use wz_capi_c::session::zc_owned_concurrent_close_handle_t;
use wz_capi_c::session::ConfigState;
use wz_capi_c::session::OpenRequest;
use wz_capi_c::session::WhatAmI;
use wz_capi_c::slice::view_slice_over;
use wz_capi_c::slice::z_slice_data;

fn config(connect: Option<&str>, listen: Option<&str>, mode: Option<&str>) -> ConfigState {
    ConfigState {
        connect: connect.map(str::to_string),
        listen: listen.map(str::to_string),
        mode: mode.map(str::to_string),
        scouting_timeout: None,
        multicast_locator: None,
        session_zid: None,
    }
}

fn moved(cfg: ConfigState) -> Moved<ConfigState> {
    Moved {
        _this: Owned::from_state(cfg),
    }
}

#[test]
fn a_mode_names_a_role_and_a_client_is_the_default() {
    for (mode, role) in [
        (Some("peer"), WhatAmI::Peer),
        (Some("router"), WhatAmI::Router),
        (Some("client"), WhatAmI::Client),
        (Some("Peer"), WhatAmI::Client),
        (None, WhatAmI::Client),
    ] {
        assert_eq!(dial_whatami(&config(None, None, mode)), role);
    }
}

#[test]
fn a_session_opens_at_one_end() {
    let mut slot: z_owned_session_t = Owned::null_value();
    let mut cfg = moved(config(Some("tcp/h:1"), None, Some("peer")));
    let code = z_open(Some(&mut slot), Some(&mut cfg), None, |request| {
        match request {
            OpenRequest::Connect { endpoint, role } => {
                assert_eq!((endpoint.as_str(), role), ("tcp/h:1", WhatAmI::Peer));
            }
            OpenRequest::Listen { .. } => panic!("the configuration connects"),
        }
        Some(8)
    });
    assert_eq!(code, Z_OK);
    assert!(cfg._this.state.is_none());
    assert_eq!(slot.state.unwrap().shared, 8);
    assert!(!z_session_is_closed(z_session_loan(Some(&slot))));
    let mut cfg = moved(config(None, Some("tcp/0:1"), None));
    let code = z_open(Some(&mut slot), Some(&mut cfg), None, |request| {
        assert!(matches!(request, OpenRequest::Listen { .. }));
        None
    });
    assert_eq!(code, Z_ENETWORK);
    assert!(!z_internal_session_check(Some(&slot)));
}

#[test]
fn both_ends_or_neither_open_nothing() {
    for (connect, listen) in [(None, None), (Some("a"), Some("b"))] {
        let mut slot: z_owned_session_t = Owned::null_value();
        let mut cfg = moved(config(connect, listen, None));
        let code = z_open(Some(&mut slot), Some(&mut cfg), None, |_| {
            panic!("nothing can be opened")
        });
        assert_eq!(code, Z_EINVAL);
        assert!(slot.state.is_none() && cfg._this.state.is_none());
    }
    let mut slot: z_owned_session_t = Owned::null_value();
    assert_eq!(z_open(Some(&mut slot), None, None, |_| Some(1)), Z_ENULL);
    let mut dead: Moved<ConfigState> = Moved {
        _this: Owned::null_value(),
    };
    assert_eq!(
        z_open(Some(&mut slot), Some(&mut dead), None, |_| Some(1)),
        Z_ENULL
    );
}

#[test]
fn a_link_is_shut_down_once() {
    let mut slot: z_owned_session_t = Owned::null_value();
    let mut cfg = moved(config(Some("a"), None, None));
    assert_eq!(
        z_open(Some(&mut slot), Some(&mut cfg), None, |_| Some(8)),
        Z_OK
    );
    assert_eq!(z_close(z_session_loan_mut(Some(&mut slot)), None), (Z_OK, Some(8)));
    assert!(z_session_is_closed(Some(&slot)));
    assert!(z_internal_session_check(Some(&slot)));
    assert_eq!(z_close(Some(&mut slot), None), (Z_OK, None));
    let mut gone = Moved { _this: slot };
    assert_eq!(z_session_drop(Some(&mut gone)), None);
    assert!(z_session_is_closed(Some(&gone._this)));
    assert_eq!(z_close(Some(&mut gone._this), None), (Z_ENULL, None));

    let mut slot: z_owned_session_t = Owned::null_value();
    let mut cfg = moved(config(Some("a"), None, None));
    z_open(Some(&mut slot), Some(&mut cfg), None, |_| Some(9));
    let mut open = Moved { _this: slot };
    assert_eq!(z_session_drop(Some(&mut open)), Some(9));
    assert_eq!(z_session_drop(Some(&mut open)), None);
}

#[test]
fn options_and_errors_have_their_defaults() {
    let mut open = z_open_options_t { _dummy: 4 };
    z_open_options_default(Some(&mut open));
    assert_eq!(open._dummy, 0);
    let mut close = z_close_options_t {
        internal_timeout_ms: 4,
        internal_out_concurrent: 4,
    };
    z_close_options_default(Some(&mut close));
    assert_eq!((close.internal_timeout_ms, close.internal_out_concurrent), (0, 0));
    let mut last = view_slice_over(b"stale");
    zc_get_last_error(Some(&mut last));
    assert_eq!(z_slice_data(Some(&last)), None);
    let handle: zc_owned_concurrent_close_handle_t = Owned::null_value();
    assert!(!zc_internal_concurrent_close_handle_check(Some(&handle)));
    let mut gone = Moved { _this: handle };
    assert_eq!(zc_concurrent_close_handle_wait(Some(&mut gone)), Z_OK);
}
