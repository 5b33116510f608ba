use wz_capi_c::result::Z_ENULL;
use wz_capi_c::result::Z_OK;
use wz_capi_c::slice::null_slice;
use wz_capi_c::slice::owned_slice_from;
use wz_capi_c::slice::take_moved_slice;
use wz_capi_c::slice::view_slice_over;
use wz_capi_c::slice::z_internal_slice_check;
use wz_capi_c::slice::z_moved_slice_t;
use wz_capi_c::slice::z_slice_clone;
use wz_capi_c::slice::z_slice_copy_from_buf;
use wz_capi_c::slice::z_slice_data;
use wz_capi_c::slice::z_slice_drop;
use wz_capi_c::slice::z_slice_from_buf;
use wz_capi_c::slice::BufferDeletion;
use wz_capi_c::slice::z_slice_is_empty;
use wz_capi_c::slice::z_slice_len;
use wz_capi_c::slice::z_slice_loan;
use wz_capi_c::slice::z_view_slice_from_buf;
use wz_capi_c::slice::z_view_slice_is_empty;
use wz_capi_c::slice::z_view_slice_loan;

/// An owned slice and a view of the same bytes read the same.
#[test]
fn owned_and_view_slices_read_the_same_through_one_loaned_shape() {
    let src = [1u8, 2, 3, 4];
    let owned = owned_slice_from(&src);
    let view = view_slice_over(&src);
    {
        let a = z_slice_loan(Some(&owned));
        let b = z_view_slice_loan(Some(&view));
        assert_eq!(z_slice_len(a), 4);
        assert_eq!(z_slice_len(b), 4);
        assert_eq!(z_slice_data(a), Some(&src[..]));
        assert_eq!(z_slice_data(b), Some(&src[..]));
        assert!(z_internal_slice_check(Some(&owned)));
    }

    // The view must not free the caller's buffer.
    let mut moved_view = z_moved_slice_t { _this: view };
    z_slice_drop(Some(&mut moved_view));
    assert_eq!(src, [1u8, 2, 3, 4]);

    let mut moved = z_moved_slice_t { _this: owned };
    z_slice_drop(Some(&mut moved));
    assert!(!z_internal_slice_check(Some(&moved._this)));
    // The slot was nulled, so this frees nothing twice.
    z_slice_drop(Some(&mut moved));
}

/// Every accessor answers a null.
#[test]
fn the_slice_accessors_answer_null_without_dereferencing_it() {
    assert!(z_slice_data(None).is_none());
    assert_eq!(z_slice_len(None), 0);
    assert!(!z_internal_slice_check(None));
    z_slice_drop(None);
}

#[test]
fn a_copied_slice_holds_the_first_bytes_of_the_buffer() {
    let mut slice = null_slice();
    assert_eq!(
        z_slice_copy_from_buf(Some(&mut slice), Some(&[7, 8, 9][..]), 2),
        Z_OK
    );
    assert_eq!(z_slice_data(Some(&slice)), Some(&[7u8, 8][..]));
    assert_eq!(z_slice_copy_from_buf(None, Some(&[7][..]), 1), Z_ENULL);
    // A null buffer is refused, and the slot is left a gravestone.
    assert_eq!(z_slice_copy_from_buf(Some(&mut slice), None, 3), Z_ENULL);
    assert!(!z_internal_slice_check(Some(&slice)));
}

#[test]
fn a_slice_over_a_buffer_releases_it_through_the_callers_drop() {
    let mut slice = null_slice();
    let (code, due) = z_slice_from_buf(Some(&mut slice), Some(&[5, 6][..]), 39, 2, Some(40), 41);
    assert_eq!(code, Z_OK);
    assert_eq!(z_slice_data(Some(&slice)), Some(&[5u8, 6][..]));
    let deletion = BufferDeletion {
        delete: 40,
        data: 39,
        context: 41,
    };
    assert_eq!(due, Some(deletion));
    // A failure releases the buffer too.
    let (code, due) = z_slice_from_buf(None, Some(&[5, 6][..]), 39, 2, Some(40), 41);
    assert_eq!((code, due), (Z_ENULL, Some(deletion)));
    let (code, due) = z_slice_from_buf(Some(&mut slice), None, 0, 2, Some(40), 41);
    assert_eq!(code, Z_ENULL);
    assert_eq!(due, Some(BufferDeletion { data: 0, ..deletion }));
    assert!(!z_internal_slice_check(Some(&slice)));
    let (code, due) = z_slice_from_buf(Some(&mut slice), Some(&[5, 6][..]), 39, 2, None, 41);
    assert_eq!((code, due), (Z_OK, None));
}

#[test]
fn a_clone_is_the_same_bytes_and_a_null_clones_to_a_gravestone() {
    let source = owned_slice_from(&[1, 2, 3]);
    let mut copy = null_slice();
    z_slice_clone(Some(&mut copy), Some(&source));
    assert_eq!(z_slice_data(Some(&copy)), Some(&[1u8, 2, 3][..]));
    z_slice_clone(Some(&mut copy), None);
    assert!(!z_internal_slice_check(Some(&copy)));
}

#[test]
fn taking_a_moved_slice_leaves_nothing_to_take() {
    let mut moved = z_moved_slice_t {
        _this: owned_slice_from(&[9, 9]),
    };
    assert_eq!(take_moved_slice(Some(&mut moved)), Some(vec![9, 9]));
    assert_eq!(take_moved_slice(Some(&mut moved)), None);
    assert_eq!(take_moved_slice(None), None);
}

#[test]
fn a_view_borrows_and_an_empty_one_is_empty() {
    let bytes = [1u8, 2, 3];
    let mut view = null_slice();
    assert!(z_view_slice_is_empty(Some(&view)));
    assert_eq!(z_view_slice_from_buf(Some(&mut view), Some(&bytes[..]), 3), Z_OK);
    assert!(!z_view_slice_is_empty(Some(&view)));
    assert!(!z_slice_is_empty(Some(&view)));
    assert_eq!(z_view_slice_from_buf(None, Some(&bytes[..]), 3), Z_ENULL);
}
