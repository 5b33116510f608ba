use std::cell::RefCell;
use wz_capi_c::closure::CClosure;
use wz_capi_c::closure::DropCall;
use wz_capi_c::closure::MovedClosure;
use wz_capi_c::handle::Moved;
use wz_capi_c::handle::Owned;
use wz_capi_c::meta::z_id_t;
use wz_capi_c::result::Z_EINVAL;
use wz_capi_c::result::Z_ENULL;
use wz_capi_c::result::Z_OK;
use wz_capi_c::scout::hello_delivery;
use wz_capi_c::scout::z_closure_hello;
use wz_capi_c::scout::z_closure_hello_drop;
use wz_capi_c::scout::z_hello_drop;
use wz_capi_c::scout::z_hello_loan;
use wz_capi_c::scout::z_hello_locators;
use wz_capi_c::scout::z_hello_whatami;
use wz_capi_c::scout::z_hello_zid;
use wz_capi_c::scout::z_internal_hello_check;
use wz_capi_c::scout::z_internal_string_array_check;
use wz_capi_c::scout::z_owned_hello_t;
use wz_capi_c::scout::z_owned_string_array_t;
use wz_capi_c::scout::z_scout;
use wz_capi_c::scout::z_scout_options_default;
use wz_capi_c::scout::z_scout_options_t;
use wz_capi_c::scout::z_string_array_drop;
use wz_capi_c::scout::z_string_array_get;
use wz_capi_c::scout::z_string_array_is_empty;
use wz_capi_c::scout::z_string_array_len;
use wz_capi_c::scout::z_string_array_loan;
use wz_capi_c::scout::z_whatami_to_view_string;
use wz_capi_c::scout::ScoutRequest;
use wz_capi_c::scout::StringArrayState;
use wz_capi_c::scout::WireHello;
use wz_capi_c::scout::Z_WHATAMI_PEER;
use wz_capi_c::scout::Z_WHATAMI_ROUTER;
use wz_capi_c::session::ConfigState;
use wz_capi_c::slice::null_slice;
use wz_capi_c::slice::z_slice_data;
use wz_capi_c::text::parse_number;
use wz_capi_c::text::trim;
use wz_capi_c::text::white_space;

/// A mask is named by its roles: 3 is a router or a peer.
#[test]
fn whatami_renders_the_bitmask_combinations() {
    let render = |w: i32| -> Option<String> {
        let mut out = null_slice();
        let rc = z_whatami_to_view_string(w, Some(&mut out));
        if rc != Z_OK {
            return None;
        }
        Some(String::from_utf8_lossy(z_slice_data(Some(&out)).unwrap()).into_owned())
    };
    assert_eq!(render(1).as_deref(), Some("router"));
    assert_eq!(render(2).as_deref(), Some("peer"));
    assert_eq!(render(3).as_deref(), Some("router|peer"));
    assert_eq!(render(4).as_deref(), Some("client"));
    assert_eq!(render(7).as_deref(), Some("router|peer|client"));
    assert_eq!(
        render(0),
        None,
        "0 is not a role and must not render as one"
    );
    assert_eq!(render(8), None);
}

/// A string array reads by index, and a borrowed string stays what it was.
#[test]
fn the_string_array_reads_by_index_and_keeps_its_pointers_stable() {
    let owned = Owned::from_state(StringArrayState::from_strings(&[
        "tcp/127.0.0.1:7447".to_string(),
        "udp/127.0.0.1:7447".to_string(),
    ]));
    {
        let loaned = z_string_array_loan(Some(&owned));
        assert_eq!(z_string_array_len(loaned), 2);
        assert!(!z_string_array_is_empty(loaned));
        let first = z_string_array_get(loaned, 0);
        let second = z_string_array_get(loaned, 1);
        assert!(first.is_some() && second.is_some());
        assert!(!std::ptr::eq(first.unwrap(), second.unwrap()));
        // Reading an index again gives the same string.
        assert!(std::ptr::eq(z_string_array_get(loaned, 0).unwrap(), first.unwrap()));
        assert_eq!(z_slice_data(first), Some(&b"tcp/127.0.0.1:7447"[..]));
        assert!(
            z_string_array_get(loaned, 2).is_none(),
            "past the end must be NULL, not a wrapped index"
        );
    }
    let mut moved = Moved { _this: owned };
    z_string_array_drop(Some(&mut moved));
    assert!(!z_internal_string_array_check(Some(&moved._this)));
    z_string_array_drop(Some(&mut moved));
}

/// One second for routers and peers.
#[test]
fn the_scout_options_default_is_one_second_router_peer() {
    let mut opts = z_scout_options_t {
        timeout_ms: 0,
        what: 0,
    };
    z_scout_options_default(Some(&mut opts));
    assert_eq!(opts.timeout_ms, 1000);
    assert_eq!(opts.what, 3);
}

/// Every accessor answers a null hello.
#[test]
fn the_hello_accessors_answer_null_without_dereferencing_it() {
    assert_eq!(z_hello_whatami(None), Z_WHATAMI_PEER);
    let mut arr: z_owned_string_array_t =
        Owned::from_state(StringArrayState::from_strings(&["stale".to_string()]));
    z_hello_locators(None, Some(&mut arr));
    assert_eq!(z_string_array_len(z_string_array_loan(Some(&arr))), 0);
    let mut moved = Moved { _this: arr };
    z_string_array_drop(Some(&mut moved));
    assert!(!z_internal_hello_check(None));
    z_hello_drop(None);
    assert_eq!(z_string_array_len(None), 0);
    assert!(z_string_array_get(None, 0).is_none());
}

#[test]
fn a_hello_reads_back_what_the_node_said() {
    let closure = CClosure {
        context: 3,
        call: Some(1),
        drop: None,
    };
    let due = hello_delivery(
        &closure,
        WireHello {
            zid: z_id_t { id: [6; 16] },
            whatami: Some(Z_WHATAMI_ROUTER),
            locators: vec!["tcp/h:1".to_string()],
        },
    )
    .unwrap();
    assert_eq!(due.invocation.context, 3);
    let owned: z_owned_hello_t = Owned::from_state(due.hello);
    let loaned = z_hello_loan(Some(&owned));
    assert_eq!(z_hello_zid(loaned).id, [6; 16]);
    assert_eq!(z_hello_whatami(loaned), Z_WHATAMI_ROUTER);
    let mut arr: z_owned_string_array_t = Owned::null_value();
    z_hello_locators(loaned, Some(&mut arr));
    let mut moved = Moved { _this: owned };
    z_hello_drop(Some(&mut moved));
    // The array outlives the hello.
    assert_eq!(
        z_slice_data(z_string_array_get(Some(&arr), 0)),
        Some(&b"tcp/h:1"[..])
    );
    let silent = hello_delivery(
        &closure,
        WireHello {
            zid: z_id_t { id: [0; 16] },
            whatami: None,
            locators: vec![],
        },
    )
    .unwrap();
    assert_eq!(silent.hello.whatami, Z_WHATAMI_PEER);
}

fn config(timeout: Option<&str>, locator: Option<&str>, zid: Option<&str>) -> Moved<ConfigState> {
    Moved {
        _this: Owned::from_state(ConfigState {
            connect: None,
            listen: None,
            mode: None,
            scouting_timeout: timeout.map(str::to_string),
            multicast_locator: locator.map(str::to_string),
            session_zid: zid.map(str::to_string),
        }),
    }
}

fn handler() -> MovedClosure {
    MovedClosure {
        _this: CClosure {
            context: 3,
            call: Some(1),
            drop: Some(2),
        },
    }
}

fn run(
    cfg: Option<&mut Moved<ConfigState>>,
    closure: Option<&mut MovedClosure>,
    options: Option<&z_scout_options_t>,
) -> ((i8, Option<DropCall>), Option<ScoutRequest>) {
    let seen = RefCell::new(None);
    let r = z_scout(
        cfg,
        closure,
        options,
        "default",
        &|t: &str| match t {
            "default" => Some((1, 7446)),
            "there" => Some((2, 99)),
            _ => None,
        },
        &|t: &str| if t == "aa" { Some(vec![0xaa]) } else { None },
        || vec![0xff],
        |request| {
            *seen.borrow_mut() = Some(request);
        },
    );
    (r, seen.into_inner())
}

#[test]
fn a_scout_without_options_takes_them_from_the_configuration() {
    let mut cfg = config(Some(" 2500\n"), Some("\tthere "), Some(" aa"));
    let mut closure = handler();
    let (r, request) = run(Some(&mut cfg), Some(&mut closure), None);
    // The drop is due once, after the scout.
    assert_eq!(
        r,
        (
            Z_OK,
            Some(DropCall {
                drop: 2,
                context: 3
            })
        )
    );
    let request = request.unwrap();
    assert_eq!((request.what, request.budget_ms), (3, 2500));
    assert_eq!((request.group, request.port), (2, 99));
    assert_eq!(request.zid, [0xaa]);
    assert_eq!(request.closure.call, Some(1));
    assert!(cfg._this.state.is_none() && closure._this.call.is_none());
    assert_eq!(z_closure_hello_drop(Some(&mut closure)), None);
}

#[test]
fn options_take_precedence_and_what_is_not_said_is_defaulted() {
    let options = z_scout_options_t {
        timeout_ms: 7,
        what: 0x1_06,
    };
    let mut cfg = config(Some("2500"), None, Some("not hex"));
    let (r, request) = run(Some(&mut cfg), Some(&mut handler()), Some(&options));
    assert_eq!(r.0, Z_OK);
    let request = request.unwrap();
    assert_eq!((request.what, request.budget_ms), (6, 7));
    assert_eq!((request.group, request.port), (1, 7446));
    assert_eq!(request.zid, [0xff]);
    // A timeout that is no number, and no configuration at all.
    let mut cfg = config(Some("soon"), None, None);
    let (_, request) = run(Some(&mut cfg), Some(&mut handler()), None);
    assert_eq!(request.unwrap().budget_ms, 1000);
    let (_, request) = run(None, Some(&mut handler()), None);
    assert_eq!(request.unwrap().budget_ms, 1000);
    let negative = z_scout_options_t {
        timeout_ms: 1,
        what: -1,
    };
    let (_, request) = run(None, Some(&mut handler()), Some(&negative));
    assert_eq!(request.unwrap().what, 255);
}

#[test]
fn a_scout_that_goes_nowhere_still_drops_its_closure() {
    let mut cfg = config(None, Some("nowhere"), None);
    let (r, request) = run(Some(&mut cfg), Some(&mut handler()), None);
    assert_eq!(
        r,
        (
            Z_EINVAL,
            Some(DropCall {
                drop: 2,
                context: 3
            })
        )
    );
    assert!(request.is_none());
    let mut cfg = config(None, None, None);
    let (r, _) = run(Some(&mut cfg), None, None);
    assert_eq!(r, (Z_ENULL, None));
    assert!(cfg._this.state.is_some());
}

#[test]
fn a_hello_closure_is_built_and_dropped() {
    let mut closure = CClosure::null_value();
    z_closure_hello(Some(&mut closure), Some(5), Some(6), 7);
    assert_eq!((closure.call, closure.drop, closure.context), (Some(5), Some(6), 7));
    let mut moved = MovedClosure { _this: closure };
    assert_eq!(
        z_closure_hello_drop(Some(&mut moved)),
        Some(DropCall {
            drop: 6,
            context: 7
        })
    );
    assert_eq!(z_closure_hello_drop(None), None);
}

#[test]
fn white_space_is_what_std_says_it_is() {
    for n in 0..0x3100u32 {
        if let Some(c) = char::from_u32(n) {
            assert_eq!(white_space(c), c.is_whitespace(), "{n:x}");
        }
    }
    for text in ["", "  ", " a b\u{3000}", "\u{85}x", "plain", "\n \t"] {
        assert_eq!(trim(text), text.trim());
    }
}

#[test]
fn numbers_are_read_as_std_reads_them() {
    for text in [
        "",
        "+",
        "0",
        "+7",
        "-1",
        "-0",
        "007",
        "18446744073709551615",
        "18446744073709551616",
        "99999999999999999999999",
        "1 ",
        "1_0",
        "0x10",
        "\u{662}",
    ] {
        assert_eq!(parse_number(text), text.parse::<u64>().ok(), "{text}");
    }
}
