use wz_capi_c::bytes::z_owned_bytes_t;
use wz_capi_c::bytes::BytesState;
use wz_capi_c::codec::decode_zint;
use wz_capi_c::codec::encode_zint;
use wz_capi_c::handle::Owned;
use wz_capi_c::result::Z_EDESERIALIZE;
use wz_capi_c::result::Z_ENULL;
use wz_capi_c::result::Z_EPARSE;
use wz_capi_c::result::Z_OK;
use wz_capi_c::serde::ze_deserialize_uint32;
use wz_capi_c::serde::ze_deserializer_deserialize_float;
use wz_capi_c::serde::ze_deserializer_deserialize_int32;
use wz_capi_c::serde::ze_deserializer_deserialize_sequence_length;
use wz_capi_c::serde::ze_deserializer_deserialize_string;
use wz_capi_c::serde::ze_deserializer_deserialize_uint32;
use wz_capi_c::serde::ze_deserializer_deserialize_uint64;
use wz_capi_c::serde::ze_deserializer_from_bytes;
use wz_capi_c::serde::ze_internal_serializer_check;
use wz_capi_c::serde::ze_moved_serializer_t;
use wz_capi_c::serde::ze_owned_serializer_t;
use wz_capi_c::serde::ze_serialize_uint32;
use wz_capi_c::serde::ze_serializer_drop;
use wz_capi_c::serde::ze_serializer_empty;
use wz_capi_c::serde::ze_serializer_finish;
use wz_capi_c::serde::ze_serializer_loan_mut;
use wz_capi_c::serde::ze_serializer_serialize_float;
use wz_capi_c::serde::ze_serializer_serialize_int32;
use wz_capi_c::serde::ze_serializer_serialize_sequence_length;
use wz_capi_c::serde::ze_serializer_serialize_str;
use wz_capi_c::serde::ze_serializer_serialize_string;
use wz_capi_c::serde::ze_serializer_serialize_uint32;
use wz_capi_c::serde::ze_serializer_serialize_uint64;
use wz_capi_c::slice::null_slice;
use wz_capi_c::slice::z_slice_data;
use wz_capi_c::string::owned_string_from;

fn payload_of(bytes: &[u8]) -> z_owned_bytes_t {
    Owned::from_state(BytesState::whole(bytes.to_vec()))
}

fn bytes_in(payload: &z_owned_bytes_t) -> &[u8] {
    &payload.state.as_ref().unwrap().payload
}

/// Numbers are fixed-width, least significant byte first; lengths are
/// variable-length.
#[test]
fn the_serializer_writes_fixed_width_arithmetic_and_vle_lengths() {
    let mut ser: ze_owned_serializer_t = Owned::null_value();
    assert_eq!(ze_serializer_empty(Some(&mut ser)), Z_OK);
    assert_eq!(
        ze_serializer_serialize_float(ze_serializer_loan_mut(Some(&mut ser)), 1.0f32.to_bits()),
        Z_OK
    );
    assert_eq!(
        ze_serializer_serialize_sequence_length(ze_serializer_loan_mut(Some(&mut ser)), 2),
        Z_OK
    );
    assert_eq!(
        ze_serializer_serialize_uint64(ze_serializer_loan_mut(Some(&mut ser)), 1),
        Z_OK
    );
    assert_eq!(
        ze_serializer_serialize_int32(ze_serializer_loan_mut(Some(&mut ser)), -2),
        Z_OK
    );
    assert_eq!(
        ze_serializer_serialize_str(ze_serializer_loan_mut(Some(&mut ser)), Some(&b"test"[..])),
        Z_OK
    );

    let mut payload: z_owned_bytes_t = Owned::null_value();
    let mut moved = ze_moved_serializer_t { _this: ser };
    ze_serializer_finish(Some(&mut moved), Some(&mut payload));
    assert!(!ze_internal_serializer_check(Some(&moved._this)));

    let mut expect: Vec<u8> = Vec::new();
    expect.extend_from_slice(&1.0f32.to_le_bytes());
    expect.push(2);
    expect.extend_from_slice(&1u64.to_le_bytes());
    expect.extend_from_slice(&(-2i32).to_le_bytes());
    expect.push(4);
    expect.extend_from_slice(b"test");
    assert_eq!(
        bytes_in(&payload),
        &expect[..],
        "the serialized bytes are the format"
    );

    // The deserializer reads them back in the same order.
    let mut de = ze_deserializer_from_bytes(Some(&payload));
    let (mut f, mut n, mut u, mut i) = (0u32, 0usize, 0u64, 0i32);
    let mut text = null_slice();
    assert_eq!(
        ze_deserializer_deserialize_float(Some(&mut de), Some(&mut f)),
        Z_OK
    );
    assert_eq!(
        ze_deserializer_deserialize_sequence_length(Some(&mut de), Some(&mut n)),
        Z_OK
    );
    assert_eq!(
        ze_deserializer_deserialize_uint64(Some(&mut de), Some(&mut u)),
        Z_OK
    );
    assert_eq!(
        ze_deserializer_deserialize_int32(Some(&mut de), Some(&mut i)),
        Z_OK
    );
    assert_eq!(
        ze_deserializer_deserialize_string(Some(&mut de), Some(&mut text)),
        Z_OK
    );
    assert_eq!((f32::from_bits(f), n, u, i), (1.0f32, 2, 1u64, -2i32));
    assert_eq!(z_slice_data(Some(&text)), Some(&b"test"[..]));

    // Drained: the next read fails and invents no value.
    assert_eq!(
        ze_deserializer_deserialize_int32(Some(&mut de), Some(&mut i)),
        Z_EDESERIALIZE
    );
}

/// A number on its own is its four bytes, and a payload of another length holds
/// no number.
#[test]
fn the_standalone_uint32_pair_round_trips_and_rejects_a_wrong_length() {
    let mut payload: z_owned_bytes_t = Owned::null_value();
    assert_eq!(ze_serialize_uint32(Some(&mut payload), 1234), Z_OK);
    assert_eq!(bytes_in(&payload), &1234u32.to_le_bytes()[..]);
    let mut out = 0u32;
    assert_eq!(ze_deserialize_uint32(Some(&payload), Some(&mut out)), Z_OK);
    assert_eq!(out, 1234);

    let short = payload_of(&[1u8, 2]);
    assert_eq!(
        ze_deserialize_uint32(Some(&short), Some(&mut out)),
        Z_EPARSE
    );
}

/// A string that ends too soon leaves the cursor before its length.
#[test]
fn a_truncated_string_leaves_the_cursor_where_it_was() {
    // The length is 4, and two bytes follow.
    let payload = payload_of(&[4u8, b'a', b'b']);
    let mut de = ze_deserializer_from_bytes(Some(&payload));
    let before = de.pos;
    let mut text = null_slice();
    assert_eq!(
        ze_deserializer_deserialize_string(Some(&mut de), Some(&mut text)),
        Z_EDESERIALIZE
    );
    assert_eq!(de.pos, before, "a failed read must not consume the length");
}

#[test]
fn the_serializer_functions_answer_null() {
    assert_eq!(ze_serializer_empty(None), Z_ENULL);
    assert_eq!(ze_serializer_serialize_uint32(None, 1), Z_ENULL);
    assert_eq!(ze_serializer_serialize_str(None, None), Z_ENULL);
    let mut ser: ze_owned_serializer_t = Owned::null_value();
    // A gravestone takes nothing.
    assert_eq!(ze_serializer_serialize_uint64(Some(&mut ser), 1), Z_ENULL);
    assert_eq!(ze_serialize_uint32(None, 5), Z_ENULL);
    let mut out = 3u32;
    assert_ne!(ze_deserialize_uint32(None, Some(&mut out)), Z_OK);
    assert_eq!(ze_deserializer_deserialize_uint32(None, Some(&mut out)), Z_ENULL);
    let mut moved = ze_moved_serializer_t { _this: ser };
    ze_serializer_drop(Some(&mut moved));
    ze_serializer_drop(None);
}

#[test]
fn a_string_survives_serialization() {
    let mut ser: ze_owned_serializer_t = Owned::null_value();
    assert_eq!(ze_serializer_empty(Some(&mut ser)), Z_OK);
    let long = vec![b'x'; 300];
    let text = owned_string_from(&long);
    assert_eq!(
        ze_serializer_serialize_string(Some(&mut ser), Some(&text)),
        Z_OK
    );
    assert_eq!(
        ze_serializer_serialize_uint32(Some(&mut ser), 0xdead_beef),
        Z_OK
    );
    let mut payload: z_owned_bytes_t = Owned::null_value();
    let mut moved = ze_moved_serializer_t { _this: ser };
    ze_serializer_finish(Some(&mut moved), Some(&mut payload));
    // 300 takes two bytes.
    assert_eq!(bytes_in(&payload)[..2], [0xac, 0x02]);
    let mut de = ze_deserializer_from_bytes(Some(&payload));
    let mut back = null_slice();
    let mut number = 0u32;
    assert_eq!(
        ze_deserializer_deserialize_string(Some(&mut de), Some(&mut back)),
        Z_OK
    );
    assert_eq!(
        ze_deserializer_deserialize_uint32(Some(&mut de), Some(&mut number)),
        Z_OK
    );
    assert_eq!(z_slice_data(Some(&back)), Some(&long[..]));
    assert_eq!(number, 0xdead_beef);
    assert_eq!(de.pos, bytes_in(&payload).len());
}

#[test]
fn variable_length_numbers_are_read_back() {
    for v in [0u64, 1, 127, 128, 300, u32::MAX as u64, u64::MAX - 1, u64::MAX] {
        let mut out = vec![0xee];
        encode_zint(&mut out, v);
        out.push(0x55);
        let (back, used) = decode_zint(&out, 1).unwrap();
        assert_eq!(back, v);
        assert_eq!(used, out.len() - 2);
        assert!(used <= 9);
    }
    assert_eq!(decode_zint(&[0x80], 0), None);
    let mut widest = Vec::new();
    encode_zint(&mut widest, u64::MAX);
    assert_eq!(widest, vec![0xff; 9]);
}
