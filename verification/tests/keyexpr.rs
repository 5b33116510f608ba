use wz_capi_c::handle::Moved;
use wz_capi_c::handle::Owned;
use wz_capi_c::keyexpr::keyexpr_str;
use wz_capi_c::keyexpr::require_canonical;
use wz_capi_c::keyexpr::z_declare_keyexpr;
use wz_capi_c::keyexpr::z_internal_keyexpr_check;
use wz_capi_c::keyexpr::z_keyexpr_canonize;
use wz_capi_c::keyexpr::z_keyexpr_canonize_null_terminated;
use wz_capi_c::keyexpr::z_keyexpr_clone;
use wz_capi_c::keyexpr::z_keyexpr_concat;
use wz_capi_c::keyexpr::z_keyexpr_drop;
use wz_capi_c::keyexpr::z_keyexpr_equals;
use wz_capi_c::keyexpr::z_keyexpr_from_str;
use wz_capi_c::keyexpr::z_keyexpr_from_str_autocanonize;
use wz_capi_c::keyexpr::z_keyexpr_from_substr;
use wz_capi_c::keyexpr::z_keyexpr_includes;
use wz_capi_c::keyexpr::z_keyexpr_intersects;
use wz_capi_c::keyexpr::z_keyexpr_is_canon;
use wz_capi_c::keyexpr::z_keyexpr_join;
use wz_capi_c::keyexpr::z_keyexpr_loan;
use wz_capi_c::keyexpr::z_keyexpr_relation_to;
use wz_capi_c::keyexpr::z_owned_keyexpr_t;
use wz_capi_c::keyexpr::z_undeclare_keyexpr;
use wz_capi_c::keyexpr::z_view_keyexpr_from_str;
use wz_capi_c::keyexpr::z_view_keyexpr_from_str_unchecked;
use wz_capi_c::keyexpr::z_view_keyexpr_from_substr;
use wz_capi_c::keyexpr::z_view_keyexpr_is_empty;
use wz_capi_c::keyexpr::z_view_keyexpr_loan;
use wz_capi_c::keyexpr::z_view_keyexpr_t;
use wz_capi_c::keyexpr::DeclaredKeyexpr;
use wz_capi_c::keyexpr::KeyexprState;
use wz_capi_c::result::Z_EINVAL;
use wz_capi_c::result::Z_ENULL;
use wz_capi_c::result::Z_OK;
use wz_capi_c::session::SessionState;
use wz_capi_c::text::split;

/// The canonical form of a text, or nothing for one that is not a key expression.
fn canon(text: &str) -> Option<String> {
    if text.split('/').any(|chunk| chunk.is_empty()) {
        return None;
    }
    let mut out: Vec<&str> = Vec::new();
    for chunk in text.split('/') {
        if chunk == "**" && out.last() == Some(&"**") {
            continue;
        }
        if chunk == "*" && out.last() == Some(&"**") {
            let at = out.len() - 1;
            out.insert(at, "*");
            continue;
        }
        out.push(chunk);
    }
    Some(out.join("/"))
}

fn meets(a: &[String], b: &[String]) -> bool {
    match (a.first(), b.first()) {
        (None, None) => true,
        (Some(x), _) if x == "**" => meets(&a[1..], b) || (!b.is_empty() && meets(a, &b[1..])),
        (_, Some(y)) if y == "**" => meets(a, &b[1..]) || (!a.is_empty() && meets(&a[1..], b)),
        (Some(x), Some(y)) => (x == y || x == "*" || y == "*") && meets(&a[1..], &b[1..]),
        _ => false,
    }
}

fn covers(a: &[String], b: &[String]) -> bool {
    match (a.first(), b.first()) {
        (None, None) => true,
        (Some(x), _) if x == "**" => covers(&a[1..], b) || (!b.is_empty() && covers(a, &b[1..])),
        (Some(x), Some(y)) => {
            (x == y || (x == "*" && y != "**")) && covers(&a[1..], &b[1..])
        }
        _ => false,
    }
}

fn key(text: &str) -> z_owned_keyexpr_t {
    Owned::from_state(KeyexprState::new(text.to_string()))
}

/// A length ends a key expression, not a zero.
#[test]
fn the_substr_constructor_stops_at_the_length_not_at_a_nul() {
    let selector = b"demo/example/**?value=1";
    let mut view: z_view_keyexpr_t = Owned::null_value();
    assert_eq!(
        z_view_keyexpr_from_substr(Some(&mut view), Some(&selector[..]), 15, &canon),
        Z_OK
    );
    let loaned = z_view_keyexpr_loan(Some(&view));
    assert_eq!(
        keyexpr_str(loaned),
        Some("demo/example/**"),
        "the constructor read past its length into the parameters"
    );
}

/// Meeting is symmetric, and it is not equality.
#[test]
fn keyexpr_intersection_is_symmetric_and_is_not_equality() {
    let mut wild: z_view_keyexpr_t = Owned::null_value();
    let mut concrete: z_view_keyexpr_t = Owned::null_value();
    let mut other: z_view_keyexpr_t = Owned::null_value();
    assert_eq!(
        z_view_keyexpr_from_str(Some(&mut wild), Some(&b"demo/**"[..]), &canon),
        Z_OK
    );
    assert_eq!(
        z_view_keyexpr_from_str(Some(&mut concrete), Some(&b"demo/a/b"[..]), &canon),
        Z_OK
    );
    assert_eq!(
        z_view_keyexpr_from_str(Some(&mut other), Some(&b"other/a"[..]), &canon),
        Z_OK
    );
    let intersects = |a: &Vec<String>, b: &Vec<String>| meets(a, b);
    let (w, c, o) = (
        z_view_keyexpr_loan(Some(&wild)),
        z_view_keyexpr_loan(Some(&concrete)),
        z_view_keyexpr_loan(Some(&other)),
    );
    assert!(z_keyexpr_intersects(w, c, &intersects));
    assert!(
        z_keyexpr_intersects(c, w, &intersects),
        "intersection must be symmetric"
    );
    assert!(!z_keyexpr_intersects(w, o, &intersects));
    assert!(!z_keyexpr_intersects(None, c, &intersects));
    assert!(!z_keyexpr_intersects(c, None, &intersects));
}

#[test]
fn a_constructor_takes_canonical_texts_only() {
    let mut slot: z_owned_keyexpr_t = key("left/over");
    assert_eq!(
        z_keyexpr_from_str(Some(&mut slot), Some(&b"a/**/**"[..]), &canon),
        Z_EINVAL
    );
    assert!(!z_internal_keyexpr_check(Some(&slot)));
    assert_eq!(
        z_keyexpr_from_str(Some(&mut slot), Some(&b"a//b"[..]), &canon),
        Z_EINVAL
    );
    // Nor bytes that are no text.
    assert_eq!(
        z_keyexpr_from_str(Some(&mut slot), Some(&[b'a', 0xff][..]), &canon),
        Z_EINVAL
    );
    assert_eq!(z_keyexpr_from_str(Some(&mut slot), None, &canon), Z_ENULL);
    assert_eq!(
        z_keyexpr_from_str(None, Some(&b"a"[..]), &canon),
        Z_ENULL
    );
    assert_eq!(
        z_keyexpr_from_str(Some(&mut slot), Some("caf\u{e9}/x".as_bytes()), &canon),
        Z_OK
    );
    assert_eq!(
        keyexpr_str(z_keyexpr_loan(Some(&slot))),
        Some("caf\u{e9}/x")
    );
    assert_eq!(
        z_keyexpr_from_substr(Some(&mut slot), Some(&b"a/b/c"[..]), 3, &canon),
        Z_OK
    );
    assert_eq!(keyexpr_str(Some(&slot)), Some("a/b"));
    assert!(require_canonical("a/**", &canon).is_ok());
    assert_eq!(require_canonical("a/**/**", &canon), Err(Z_EINVAL));
}

#[test]
fn an_unchecked_view_takes_any_text() {
    let mut view: z_view_keyexpr_t = Owned::null_value();
    z_view_keyexpr_from_str_unchecked(Some(&mut view), Some(&b"a/**/**"[..]));
    assert_eq!(keyexpr_str(Some(&view)), Some("a/**/**"));
    z_view_keyexpr_from_str_unchecked(Some(&mut view), Some(&[0xc3][..]));
    assert!(z_view_keyexpr_is_empty(Some(&view)));
}

#[test]
fn autocanonizing_stores_the_canonical_form() {
    let mut slot: z_owned_keyexpr_t = Owned::null_value();
    let mut buffer = b"a/**/*\0".to_vec();
    assert_eq!(
        z_keyexpr_from_str_autocanonize(Some(&mut slot), Some(&mut buffer), &canon),
        Z_OK
    );
    assert_eq!(keyexpr_str(Some(&slot)), Some("a/*/**"));
    assert_eq!(buffer, b"a/*/**\0");
    let mut buffer = b"/a\0".to_vec();
    assert_eq!(
        z_keyexpr_from_str_autocanonize(Some(&mut slot), Some(&mut buffer), &canon),
        Z_EINVAL
    );
    assert!(slot.state.is_none());
    assert_eq!(buffer, b"/a\0");
}

#[test]
fn autocanonizing_rewrites_the_callers_buffer() {
    let mut slot: z_owned_keyexpr_t = Owned::null_value();
    let mut buffer = b"a/**/**/b\0".to_vec();
    assert_eq!(
        z_keyexpr_from_str_autocanonize(Some(&mut slot), Some(&mut buffer), &canon),
        Z_OK
    );
    assert_eq!(keyexpr_str(Some(&slot)), Some("a/**/b"));
    assert_eq!(buffer[..7], b"a/**/b\0"[..]);
    // What is no text leaves everything as it was.
    let mut buffer = vec![0xc3, 0];
    assert_eq!(
        z_keyexpr_from_str_autocanonize(Some(&mut slot), Some(&mut buffer), &canon),
        Z_EINVAL
    );
    assert!(slot.state.is_none());
    assert_eq!(buffer, [0xc3, 0]);
    assert_eq!(
        z_keyexpr_from_str_autocanonize(Some(&mut slot), None, &canon),
        Z_ENULL
    );
    let mut buffer = b"a/**/**\0".to_vec();
    assert_eq!(
        z_keyexpr_from_str_autocanonize(None, Some(&mut buffer), &canon),
        Z_ENULL
    );
    assert_eq!(buffer, b"a/**/**\0");
}

#[test]
fn canonizing_in_place_rewrites_the_run_and_its_length() {
    let mut buffer = b"a/**/**!".to_vec();
    let mut len = 7usize;
    assert_eq!(
        z_keyexpr_canonize(Some(&mut buffer), Some(&mut len), &canon),
        Z_OK
    );
    assert_eq!(len, 4);
    assert_eq!(buffer[..4], b"a/**"[..]);
    assert_eq!(buffer.len(), 8);

    let mut c_string = b"a/**/**/b\0zz".to_vec();
    assert_eq!(
        z_keyexpr_canonize_null_terminated(Some(&mut c_string), &canon),
        Z_OK
    );
    assert_eq!(c_string[..7], b"a/**/b\0"[..]);
    assert_eq!(z_keyexpr_is_canon(Some(&b"a/**/**"[..]), 4, &canon), Z_OK);
    assert_eq!(
        z_keyexpr_is_canon(Some(&b"a/**/**"[..]), 7, &canon),
        Z_EINVAL
    );
}

#[test]
fn the_relation_is_the_strongest_that_holds() {
    let includes = |a: &Vec<String>, b: &Vec<String>| covers(a, b);
    let intersects = |a: &Vec<String>, b: &Vec<String>| meets(a, b);
    let level = |a: &str, b: &str| {
        z_keyexpr_relation_to(Some(&key(a)), Some(&key(b)), &includes, &intersects)
    };
    assert_eq!(level("a/b", "a/b"), 3);
    assert_eq!(level("a/**", "a/b"), 2);
    assert_eq!(level("a/*", "*/b"), 1);
    assert_eq!(level("a/b", "c/d"), 0);
    assert!(z_keyexpr_includes(
        Some(&key("a/**")),
        Some(&key("a/b")),
        &includes
    ));
    assert!(!z_keyexpr_includes(
        Some(&key("a/b")),
        Some(&key("a/**")),
        &includes
    ));
    assert!(z_keyexpr_equals(Some(&key("a/b")), Some(&key("a/b"))));
    assert!(!z_keyexpr_equals(Some(&key("a/b")), None));
}

#[test]
fn the_level_is_what_the_three_calls_answer() {
    let includes = |a: &Vec<String>, b: &Vec<String>| covers(a, b);
    let intersects = |a: &Vec<String>, b: &Vec<String>| meets(a, b);
    let keys = [Some(key("a/**")), Some(key("a/b")), Some(key("*/b")), Some(key("c")), None];
    for left in &keys {
        for right in &keys {
            let (left, right) = (left.as_ref(), right.as_ref());
            let level = z_keyexpr_relation_to(left, right, &includes, &intersects);
            let equals = z_keyexpr_equals(left, right);
            let included = z_keyexpr_includes(left, right, &includes);
            let met = z_keyexpr_intersects(left, right, &intersects);
            assert_eq!(level == 3, equals);
            assert_eq!(level == 2, !equals && included);
            assert_eq!(level == 1, !equals && !included && met);
            assert_eq!(met, z_keyexpr_intersects(right, left, &intersects));
        }
    }
}

#[test]
fn canonizing_again_changes_nothing() {
    for text in ["a/**/**/*", "a/b", "**/**", "a//b"] {
        let mut buffer = text.as_bytes().to_vec();
        let mut len = buffer.len();
        if z_keyexpr_canonize(Some(&mut buffer), Some(&mut len), &canon) != Z_OK {
            assert_eq!((&buffer[..], len), (text.as_bytes(), text.len()));
            continue;
        }
        assert!(len <= text.len());
        assert_eq!(z_keyexpr_is_canon(Some(&buffer), len, &canon), Z_OK);
        let (left, left_len) = (buffer.clone(), len);
        assert_eq!(
            z_keyexpr_canonize(Some(&mut buffer), Some(&mut len), &canon),
            Z_OK
        );
        assert_eq!((buffer, len), (left, left_len));
    }
}

#[test]
fn concatenation_and_join_are_checked_and_canonized() {
    let mut out: z_owned_keyexpr_t = Owned::null_value();
    let left = key("a/b");
    assert_eq!(
        z_keyexpr_concat(Some(&mut out), Some(&left), Some(&b"c/d??"[..]), 3, &canon),
        Z_OK
    );
    assert_eq!(keyexpr_str(Some(&out)), Some("a/bc/d"));
    assert_eq!(
        z_keyexpr_concat(Some(&mut out), Some(&left), Some(&b"/"[..]), 1, &canon),
        Z_EINVAL
    );
    assert!(out.state.is_none());
    assert_eq!(
        z_keyexpr_join(Some(&mut out), Some(&key("a/**")), Some(&key("**/b")), &canon),
        Z_OK
    );
    assert_eq!(keyexpr_str(Some(&out)), Some("a/**/b"));
    assert_eq!(
        z_keyexpr_join(Some(&mut out), Some(&left), None, &canon),
        Z_ENULL
    );
}

#[test]
fn a_clone_is_independent_and_a_drop_is_final() {
    let source = key("a/b");
    let mut copy: z_owned_keyexpr_t = Owned::null_value();
    z_keyexpr_clone(Some(&mut copy), Some(&source));
    let mut moved = Moved { _this: source };
    z_keyexpr_drop(Some(&mut moved));
    assert!(!z_internal_keyexpr_check(Some(&moved._this)));
    z_keyexpr_drop(Some(&mut moved));
    assert_eq!(keyexpr_str(Some(&copy)), Some("a/b"));
}

#[test]
fn a_declared_keyexpr_is_undeclared_on_its_session() {
    let session = Owned::from_state(SessionState {
        shared: 7,
        closed: false,
    });
    let mut declared: z_owned_keyexpr_t = Owned::null_value();
    let code = z_declare_keyexpr(
        Some(&session),
        Some(&mut declared),
        Some(&key("a/b")),
        |s, k: &String| {
            assert_eq!((s, k.as_str()), (7, "a/b"));
            Some(31)
        },
    );
    assert_eq!(code, Z_OK);
    let mut moved = Moved { _this: declared };
    let (code, retraction) = z_undeclare_keyexpr(Some(&session), Some(&mut moved));
    assert_eq!(code, Z_OK);
    let retraction = retraction.unwrap();
    assert_eq!((retraction.session, retraction.mapping), (7, 31));
    assert!(moved._this.state.is_none());

    let mut refused: z_owned_keyexpr_t = Owned::null_value();
    let code = z_declare_keyexpr(
        Some(&session),
        Some(&mut refused),
        Some(&key("a/b")),
        |_, _: &String| None,
    );
    assert_eq!(code, Z_EINVAL);
    assert_eq!(
        z_declare_keyexpr(None, Some(&mut refused), None, |_, _: &String| Some(1)),
        Z_ENULL
    );
}

#[test]
fn a_keyexpr_is_handed_out_once_it_is_bound() {
    let mut declared = DeclaredKeyexpr::new("x/y".to_string());
    assert!(declared.as_loaned().is_none());
    declared.bind();
    assert_eq!(keyexpr_str(declared.as_loaned()), Some("x/y"));
    assert_eq!(declared.literal(), "x/y");
}

#[test]
fn a_text_is_cut_at_every_separator() {
    assert_eq!(split("a//b/", '/'), ["a", "", "b", ""]);
    assert_eq!(split("", '/'), [""]);
}
