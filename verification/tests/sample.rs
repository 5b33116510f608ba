use wz_capi_c::bytes::z_loaned_bytes_t;
use wz_capi_c::handle::Moved;
use wz_capi_c::handle::Owned;
use wz_capi_c::meta::z_timestamp_t;
use wz_capi_c::qos::SampleKind;
use wz_capi_c::sample::escape_sample;
use wz_capi_c::sample::with_marshalled;
use wz_capi_c::sample::z_internal_sample_check;
use wz_capi_c::sample::z_keyexpr_as_view_string;
use wz_capi_c::sample::z_owned_sample_t;
use wz_capi_c::sample::z_sample_attachment;
use wz_capi_c::sample::z_sample_clone;
use wz_capi_c::sample::z_sample_drop;
use wz_capi_c::sample::z_sample_keyexpr;
use wz_capi_c::sample::z_sample_kind;
use wz_capi_c::sample::z_sample_loan;
use wz_capi_c::sample::z_sample_payload;
use wz_capi_c::sample::z_sample_payload_mut;
use wz_capi_c::sample::z_sample_timestamp;
use wz_capi_c::sample::SampleMarshal;
use wz_capi_c::sample::SampleView;
use wz_capi_c::sample::Z_SAMPLE_KIND_DELETE;
use wz_capi_c::sample::Z_SAMPLE_KIND_PUT;
use wz_capi_c::slice::null_slice;
use wz_capi_c::slice::z_slice_data;

fn bytes_in(slot: Option<&z_loaned_bytes_t>) -> &[u8] {
    &slot.unwrap().state.as_ref().unwrap().payload
}

/// The accessors give back what was delivered, the attachment with it.
#[test]
fn the_accessors_reproduce_a_sample_that_carries_an_attachment() {
    let view = SampleView {
        keyexpr: "demo/capic/att".to_string(),
        payload: b"BODY".to_vec(),
        kind: SampleKind::Put,
        attachment: Some(b"ATTACHED".to_vec()),
        timestamp: None,
    };
    with_marshalled(&view, |sample| {
        assert_eq!(z_sample_kind(Some(sample)), Z_SAMPLE_KIND_PUT);
        assert_eq!(bytes_in(z_sample_payload(Some(sample))), b"BODY");

        let att = z_sample_attachment(Some(sample));
        assert!(
            att.is_some(),
            "an attachment was carried but reported absent"
        );
        assert_eq!(bytes_in(att), b"ATTACHED");

        let mut view_string = null_slice();
        z_keyexpr_as_view_string(z_sample_keyexpr(Some(sample)), Some(&mut view_string));
        assert_eq!(z_slice_data(Some(&view_string)), Some(&b"demo/capic/att"[..]));
    });
}

/// No attachment is null and not an empty one.
#[test]
fn a_sample_without_an_attachment_reports_null_not_an_empty_blob() {
    let view = SampleView {
        keyexpr: "demo/capic/plain".to_string(),
        payload: b"".to_vec(),
        kind: SampleKind::Del,
        attachment: None,
        timestamp: None,
    };
    with_marshalled(&view, |sample| {
        assert_eq!(z_sample_kind(Some(sample)), Z_SAMPLE_KIND_DELETE);
        assert!(
            z_sample_attachment(Some(sample)).is_none(),
            "no attachment was carried, so the accessor must report NULL"
        );
    });
}

/// A null sample is answered.
#[test]
fn the_accessors_answer_a_null_sample_without_dereferencing_it() {
    assert!(z_sample_keyexpr(None).is_none());
    assert!(z_sample_payload(None).is_none());
    assert!(z_sample_attachment(None).is_none());
    assert_eq!(z_sample_kind(None), Z_SAMPLE_KIND_PUT);
}

fn owned_view() -> SampleView {
    SampleView {
        keyexpr: "demo/owned".to_string(),
        payload: b"BODY".to_vec(),
        kind: SampleKind::Put,
        attachment: Some(b"ATT".to_vec()),
        timestamp: None,
    }
}

/// A cloned sample reads right after its callback has returned.
#[test]
fn an_escaped_sample_outlives_the_callback_that_delivered_it() {
    let mut owned: z_owned_sample_t = Owned::null_value();
    with_marshalled(&owned_view(), |sample| {
        z_sample_clone(Some(&mut owned), Some(sample));
    });
    assert!(z_internal_sample_check(Some(&owned)));
    {
        let loaned = z_sample_loan(Some(&owned));
        assert_eq!(z_sample_kind(loaned), Z_SAMPLE_KIND_PUT);

        let mut view_string = null_slice();
        z_keyexpr_as_view_string(z_sample_keyexpr(loaned), Some(&mut view_string));
        assert_eq!(z_slice_data(Some(&view_string)), Some(&b"demo/owned"[..]));
        assert_eq!(bytes_in(z_sample_payload(loaned)), b"BODY");
        assert_eq!(bytes_in(z_sample_attachment(loaned)), b"ATT");
    }

    let mut moved = Moved { _this: owned };
    z_sample_drop(Some(&mut moved));
    assert!(!z_internal_sample_check(Some(&moved._this)));
    // The slot was nulled.
    z_sample_drop(Some(&mut moved));
}

/// Cloning a null sample leaves a gravestone.
#[test]
fn cloning_a_null_sample_yields_a_gravestone() {
    let mut owned: z_owned_sample_t = Owned::from_state(SampleMarshal::new(
        "left/over".to_string(),
        Vec::new(),
        None,
        Z_SAMPLE_KIND_PUT,
        None,
    ));
    z_sample_clone(Some(&mut owned), None);
    assert!(!z_internal_sample_check(Some(&owned)));
    assert!(z_sample_loan(None).is_none());
}

#[test]
fn a_sample_is_unbound_until_it_comes_to_rest() {
    let mut marshal = SampleMarshal::new(
        "a/b".to_string(),
        vec![1],
        None,
        Z_SAMPLE_KIND_DELETE,
        Some(z_timestamp_t { time: 9, id: [1; 16] }),
    );
    assert!(!marshal.bound);
    assert!(z_sample_payload(Some(&marshal)).is_none());
    marshal.bind();
    assert_eq!(bytes_in(z_sample_payload(Some(&marshal))), [1]);
    assert_eq!(z_sample_timestamp(Some(&marshal)).unwrap().time, 9);
    let copy = escape_sample(Some(&marshal)).unwrap();
    assert_eq!(copy.kind, Z_SAMPLE_KIND_DELETE);
    z_sample_payload_mut(Some(&mut marshal)).unwrap().state = None;
    assert!(marshal.payload.state.is_none());
}
