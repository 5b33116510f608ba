use std::cell::Cell;
use std::cell::RefCell;
use std::rc::Rc;
use std::sync::Arc;
use wz_capi_c::closure::DropCall;
use wz_capi_c::closure::Invocation;
use wz_capi_c::handle::Moved;
use wz_capi_c::handle::Owned;
use wz_capi_c::result::Z_EINVAL;
use wz_capi_c::result::Z_ENULL;
use wz_capi_c::result::Z_OK;
use wz_capi_c::shm::buffer::CloneProgress;
use wz_capi_c::shm::buffer::DataPlace;
use wz_capi_c::shm::buffer::release_chunk;
use wz_capi_c::shm::buffer::z_bytes_as_loaned_shm;
use wz_capi_c::shm::buffer::z_bytes_as_mut_loaned_shm;
use wz_capi_c::shm::buffer::z_bytes_from_shm;
use wz_capi_c::shm::buffer::z_bytes_from_shm_mut;
use wz_capi_c::shm::buffer::z_internal_shm_check;
use wz_capi_c::shm::buffer::z_internal_shm_mut_check;
use wz_capi_c::shm::buffer::z_internal_shm_mut_null;
use wz_capi_c::shm::buffer::z_internal_shm_null;
use wz_capi_c::shm::buffer::z_shm_clone;
use wz_capi_c::shm::buffer::z_shm_clone_reply;
use wz_capi_c::shm::buffer::z_shm_data;
use wz_capi_c::shm::buffer::z_shm_from_mut;
use wz_capi_c::shm::buffer::z_shm_len;
use wz_capi_c::shm::buffer::z_shm_loan;
use wz_capi_c::shm::buffer::z_shm_loan_mut;
use wz_capi_c::shm::buffer::z_shm_mut_data;
use wz_capi_c::shm::buffer::z_shm_mut_data_mut;
use wz_capi_c::shm::buffer::z_shm_mut_drop;
use wz_capi_c::shm::buffer::z_shm_mut_len;
use wz_capi_c::shm::buffer::z_shm_mut_loan;
use wz_capi_c::shm::buffer::z_shm_mut_loan_mut;
use wz_capi_c::shm::buffer::z_shm_try_mut;
use wz_capi_c::shm::buffer::z_shm_try_reloan_mut;
use wz_capi_c::shm::foreign::AsyncJob;
use wz_capi_c::shm::foreign::DroppableContext;
use wz_capi_c::shm::foreign::z_alloc_layout_threadsafe_alloc_gc_defrag_async;
use wz_capi_c::shm::foreign::z_allocated_chunk_t;
use wz_capi_c::shm::foreign::z_chunk_alloc_result_drop;
use wz_capi_c::shm::foreign::z_chunk_alloc_result_new_error;
use wz_capi_c::shm::foreign::z_chunk_alloc_result_new_ok;
use wz_capi_c::shm::foreign::z_internal_chunk_alloc_result_check;
use wz_capi_c::shm::foreign::z_internal_chunk_alloc_result_null;
use wz_capi_c::shm::foreign::z_internal_ptr_in_segment_check;
use wz_capi_c::shm::foreign::z_internal_ptr_in_segment_null;
use wz_capi_c::shm::foreign::z_owned_chunk_alloc_result_t;
use wz_capi_c::shm::foreign::z_owned_ptr_in_segment_t;
use wz_capi_c::shm::foreign::z_ptr_in_segment_clone;
use wz_capi_c::shm::foreign::z_ptr_in_segment_drop;
use wz_capi_c::shm::foreign::z_ptr_in_segment_loan;
use wz_capi_c::shm::foreign::z_ptr_in_segment_new;
use wz_capi_c::shm::foreign::z_shm_provider_alloc_gc_defrag_aligned_async;
use wz_capi_c::shm::foreign::z_shm_provider_alloc_gc_defrag_async;
use wz_capi_c::shm::foreign::z_shm_provider_map;
use wz_capi_c::shm::foreign::z_shm_provider_new;
use wz_capi_c::shm::foreign::z_shm_provider_threadsafe_new;
use wz_capi_c::shm::foreign::zc_context_t;
use wz_capi_c::shm::foreign::zc_threadsafe_context_data_t;
use wz_capi_c::shm::foreign::zc_threadsafe_context_t;
use wz_capi_c::shm::layout::MemoryLayoutState;
use wz_capi_c::shm::layout::z_alloc_alignment_t;
use wz_capi_c::shm::layout::z_internal_memory_layout_check;
use wz_capi_c::shm::layout::z_internal_memory_layout_null;
use wz_capi_c::shm::layout::z_memory_layout_drop;
use wz_capi_c::shm::layout::z_memory_layout_get_data;
use wz_capi_c::shm::layout::z_memory_layout_loan;
use wz_capi_c::shm::layout::z_memory_layout_new;
use wz_capi_c::shm::precomputed::ZC_BUF_ALLOC_STATUS_ALLOC_ERROR;
use wz_capi_c::shm::precomputed::ZC_BUF_ALLOC_STATUS_OK;
use wz_capi_c::shm::precomputed::z_alloc_layout_alloc;
use wz_capi_c::shm::precomputed::z_alloc_layout_alloc_gc;
use wz_capi_c::shm::precomputed::z_alloc_layout_alloc_gc_defrag;
use wz_capi_c::shm::precomputed::z_alloc_layout_alloc_gc_defrag_blocking;
use wz_capi_c::shm::precomputed::z_alloc_layout_alloc_gc_defrag_dealloc;
use wz_capi_c::shm::precomputed::z_alloc_layout_drop;
use wz_capi_c::shm::precomputed::z_alloc_layout_loan;
use wz_capi_c::shm::precomputed::z_alloc_layout_new;
use wz_capi_c::shm::precomputed::z_alloc_layout_with_alignment_new;
use wz_capi_c::shm::precomputed::z_buf_alloc_result_t;
use wz_capi_c::shm::precomputed::z_internal_alloc_layout_check;
use wz_capi_c::shm::precomputed::z_internal_alloc_layout_null;
use wz_capi_c::shm::precomputed::z_internal_precomputed_layout_check;
use wz_capi_c::shm::precomputed::z_internal_precomputed_layout_null;
use wz_capi_c::shm::precomputed::z_owned_precomputed_layout_t;
use wz_capi_c::shm::precomputed::z_precomputed_layout_alloc;
use wz_capi_c::shm::precomputed::z_precomputed_layout_alloc_gc;
use wz_capi_c::shm::precomputed::z_precomputed_layout_alloc_gc_defrag;
use wz_capi_c::shm::precomputed::z_precomputed_layout_alloc_gc_defrag_blocking;
use wz_capi_c::shm::precomputed::z_precomputed_layout_alloc_gc_defrag_dealloc;
use wz_capi_c::shm::precomputed::z_precomputed_layout_drop;
use wz_capi_c::shm::precomputed::z_precomputed_layout_loan;
use wz_capi_c::shm::precomputed::z_shm_provider_alloc_layout;
use wz_capi_c::shm::precomputed::z_shm_provider_alloc_layout_aligned;
use wz_capi_c::shm::provider::AllocProgress;
use wz_capi_c::shm::provider::Backing;
use wz_capi_c::shm::provider::ChunkAllocResult;
use wz_capi_c::shm::provider::ChunkBacking;
use wz_capi_c::shm::provider::Figure;
use wz_capi_c::shm::provider::GiveBack;
use wz_capi_c::shm::provider::Provider;
use wz_capi_c::shm::provider::ShmChunk;
use wz_capi_c::shm::provider::ZC_BUF_LAYOUT_ALLOC_STATUS_ALLOC_ERROR;
use wz_capi_c::shm::provider::ZC_BUF_LAYOUT_ALLOC_STATUS_LAYOUT_ERROR;
use wz_capi_c::shm::provider::ZC_BUF_LAYOUT_ALLOC_STATUS_OK;
use wz_capi_c::shm::provider::provider_alloc_reply;
use wz_capi_c::shm::provider::z_buf_layout_alloc_result_t;
use wz_capi_c::shm::provider::z_chunk_descriptor_t;
use wz_capi_c::shm::provider::z_internal_shm_provider_check;
use wz_capi_c::shm::provider::z_internal_shm_provider_null;
use wz_capi_c::shm::provider::z_owned_shm_mut_t;
use wz_capi_c::shm::provider::z_owned_shm_provider_t;
use wz_capi_c::shm::provider::z_posix_shm_provider_new;
use wz_capi_c::shm::provider::z_posix_shm_provider_with_layout_new;
use wz_capi_c::shm::provider::z_shm_provider_alloc;
use wz_capi_c::shm::provider::z_shm_provider_alloc_aligned;
use wz_capi_c::shm::provider::z_shm_provider_alloc_gc;
use wz_capi_c::shm::provider::z_shm_provider_alloc_gc_aligned;
use wz_capi_c::shm::provider::z_shm_provider_alloc_gc_defrag;
use wz_capi_c::shm::provider::z_shm_provider_alloc_gc_defrag_aligned;
use wz_capi_c::shm::provider::z_shm_provider_alloc_gc_defrag_blocking;
use wz_capi_c::shm::provider::z_shm_provider_alloc_gc_defrag_blocking_aligned;
use wz_capi_c::shm::provider::z_shm_provider_alloc_gc_defrag_dealloc;
use wz_capi_c::shm::provider::z_shm_provider_alloc_gc_defrag_dealloc_aligned;
use wz_capi_c::shm::provider::z_shm_provider_available;
use wz_capi_c::shm::provider::z_shm_provider_default_new;
use wz_capi_c::shm::provider::z_shm_provider_defragment;
use wz_capi_c::shm::provider::z_shm_provider_drop;
use wz_capi_c::shm::provider::z_shm_provider_garbage_collect;
use wz_capi_c::shm::provider::z_shm_provider_loan;
use wz_capi_c::shm::provider::zc_shm_provider_backend_callbacks_t;
use wz_capi_c::shm::segment::native_alloc;
use wz_capi_c::shm::segment::AllocStep;
use wz_capi_c::shm::segment::Segment;
use wz_capi_c::shm::segment::Z_ALLOC_ERROR_NEED_DEFRAGMENT;
use wz_capi_c::shm::segment::Z_ALLOC_ERROR_OTHER;
use wz_capi_c::shm::segment::Z_ALLOC_ERROR_OUT_OF_MEMORY;

/// What stands behind the handles here: the books, and a count of the contexts
/// that were deleted.
struct Shared {
    backing: RefCell<Option<Backing>>,
    deleted: Option<Rc<Cell<usize>>>,
}

impl Drop for Shared {
    fn drop(&mut self) {
        if let Some(count) = &self.deleted {
            count.set(count.get() + 1);
        }
    }
}

/// Where the test's memory is said to start: an address that is aligned to
/// nothing.
const ADDRESS: usize = 0x1234_5677;

fn mint(mut backing: Backing) -> Shared {
    if let Backing::Native(segment) = &mut backing {
        segment.place(ADDRESS);
    }
    Shared {
        backing: RefCell::new(Some(backing)),
        deleted: None,
    }
}

fn handle(provider: &z_owned_shm_provider_t<Shared>) -> Arc<Shared> {
    match provider.state.as_ref().unwrap() {
        Provider::Native(shared) | Provider::Foreign(shared) => shared.clone(),
    }
}

fn holder(buf: &z_owned_shm_mut_t<Shared>) -> Arc<Shared> {
    match &buf.state.as_ref().unwrap().backing {
        ChunkBacking::Native { segment, .. } => segment.clone(),
        ChunkBacking::Foreign { backend, .. } => backend.clone(),
    }
}

fn provider(total: usize) -> z_owned_shm_provider_t<Shared> {
    let mut p = Owned::null_value();
    assert_eq!(z_shm_provider_default_new(Some(&mut p), total, mint), Z_OK);
    p
}

fn empty_result() -> z_buf_layout_alloc_result_t<Shared> {
    z_buf_layout_alloc_result_t {
        status: 0,
        buf: Owned::null_value(),
        alloc_error: 0,
        layout_error: 0,
    }
}

fn empty_narrow() -> z_buf_alloc_result_t<Shared> {
    z_buf_alloc_result_t {
        status: 0,
        buf: Owned::null_value(),
        error: 0,
    }
}

/// Where a buffer's bytes are.
fn address(buf: &z_owned_shm_mut_t<Shared>) -> usize {
    let shared = holder(buf);
    match z_shm_mut_data(z_shm_mut_loan(Some(buf))).unwrap() {
        DataPlace::At(address) => address,
        DataPlace::InSegment(start) => match shared.backing.borrow().as_ref().unwrap() {
            Backing::Native(segment) => ADDRESS + segment.base + start,
            Backing::Foreign(_) => panic!("a chunk of a segment has a segment"),
        },
    }
}

/// Drops a buffer once, and hands what has to go back to whoever takes it.
fn drop_buf(buf: z_owned_shm_mut_t<Shared>) -> Option<GiveBack<Shared>> {
    let shared = holder(&buf);
    let mut moved = Moved { _this: buf };
    let mut backing = shared.backing.borrow_mut();
    z_shm_mut_drop(Some(&mut moved), backing.as_mut())
}

fn drop_provider(provider: z_owned_shm_provider_t<Shared>) {
    let mut moved = Moved { _this: provider };
    z_shm_provider_drop(Some(&mut moved));
}

/// Claims one byte, so that what follows is aligned only if it is aligned.
fn skew(p: &z_owned_shm_provider_t<Shared>) -> z_owned_shm_mut_t<Shared> {
    let mut out = empty_result();
    let shared = handle(p);
    let progress = z_shm_provider_alloc(
        Some(&mut out),
        z_shm_provider_loan(Some(p)),
        shared.backing.borrow_mut().as_mut(),
        1,
    );
    assert!(matches!(progress, AllocProgress::Done));
    assert_eq!(
        out.status, ZC_BUF_LAYOUT_ALLOC_STATUS_OK,
        "the skew allocation must succeed or the fixture proves nothing"
    );
    out.buf
}

/// A layout allocates at its own size and alignment, through every spelling.
#[test]
fn a_layout_allocates_at_its_own_size_and_alignment() {
    const POW: u8 = 6;
    const SIZE: usize = 300;
    type Spelling = fn(
        Option<&mut z_buf_alloc_result_t<Shared>>,
        Option<&z_owned_precomputed_layout_t<Shared>>,
        Option<&mut Backing>,
    ) -> AllocProgress;
    let spellings: [(&str, Spelling); 10] = [
        ("precomputed_alloc", z_precomputed_layout_alloc),
        ("precomputed_alloc_gc", z_precomputed_layout_alloc_gc),
        (
            "precomputed_alloc_gc_defrag",
            z_precomputed_layout_alloc_gc_defrag,
        ),
        (
            "precomputed_alloc_gc_defrag_blocking",
            z_precomputed_layout_alloc_gc_defrag_blocking,
        ),
        (
            "precomputed_alloc_gc_defrag_dealloc",
            z_precomputed_layout_alloc_gc_defrag_dealloc,
        ),
        ("alloc_layout_alloc", z_alloc_layout_alloc),
        ("alloc_layout_alloc_gc", z_alloc_layout_alloc_gc),
        (
            "alloc_layout_alloc_gc_defrag",
            z_alloc_layout_alloc_gc_defrag,
        ),
        (
            "alloc_layout_alloc_gc_defrag_blocking",
            z_alloc_layout_alloc_gc_defrag_blocking,
        ),
        (
            "alloc_layout_alloc_gc_defrag_dealloc",
            z_alloc_layout_alloc_gc_defrag_dealloc,
        ),
    ];
    for (name, f) in spellings {
        let p = provider(64 * 1024);
        let skewed = skew(&p);
        let mut layout = Owned::null_value();
        assert_eq!(
            z_alloc_layout_with_alignment_new(
                Some(&mut layout),
                z_shm_provider_loan(Some(&p)),
                SIZE,
                z_alloc_alignment_t { pow: POW },
            ),
            Z_OK,
            "{name}: the layout must build"
        );
        assert!(z_internal_precomputed_layout_check(Some(&layout)));

        let mut out = empty_narrow();
        let shared = handle(&p);
        f(
            Some(&mut out),
            z_precomputed_layout_loan(Some(&layout)),
            shared.backing.borrow_mut().as_mut(),
        );
        assert_eq!(out.status, ZC_BUF_ALLOC_STATUS_OK, "{name}: must allocate");
        let loaned = z_shm_mut_loan(Some(&out.buf));
        assert!(z_shm_mut_data(loaned).is_some(), "{name}: OK with no data");
        assert_eq!(
            z_shm_mut_len(loaned),
            SIZE,
            "{name}: allocated a length that is not the layout's"
        );
        assert_eq!(
            address(&out.buf) % (1usize << POW),
            0,
            "{name}: the layout's alignment did not reach the allocation"
        );

        assert!(drop_buf(out.buf).is_none());
        assert!(drop_buf(skewed).is_none());
        let mut moved_l = Moved { _this: layout };
        z_precomputed_layout_drop(Some(&mut moved_l));
        assert!(!z_internal_precomputed_layout_check(Some(&moved_l._this)));
        drop_provider(p);
    }
}

/// A layout outlives the provider handle it was built from.
#[test]
fn a_layout_outlives_the_provider_handle() {
    let p = provider(8192);
    let mut layout = Owned::null_value();
    assert_eq!(
        z_alloc_layout_new(Some(&mut layout), z_shm_provider_loan(Some(&p)), 128),
        Z_OK
    );
    drop_provider(p);

    let mut out = empty_narrow();
    let shared = match &layout.state.as_ref().unwrap().provider {
        Provider::Native(shared) | Provider::Foreign(shared) => shared.clone(),
    };
    z_precomputed_layout_alloc(
        Some(&mut out),
        z_precomputed_layout_loan(Some(&layout)),
        shared.backing.borrow_mut().as_mut(),
    );
    assert_eq!(
        out.status, ZC_BUF_ALLOC_STATUS_OK,
        "the layout must still allocate after its provider handle is gone"
    );
    drop_buf(out.buf);
    let mut moved_l = Moved { _this: layout };
    z_precomputed_layout_drop(Some(&mut moved_l));
}

/// A layout that makes no sense is refused, and null is taken everywhere.
#[test]
fn a_nonsense_layout_is_refused_and_null_is_tolerated() {
    let p = provider(4096);
    let mut layout: z_owned_precomputed_layout_t<Shared> = Owned::null_value();
    assert_eq!(
        z_alloc_layout_new(Some(&mut layout), z_shm_provider_loan(Some(&p)), 0),
        Z_EINVAL,
        "a zero-size layout is not a layout"
    );
    assert!(!z_internal_alloc_layout_check(Some(&layout)));
    assert_eq!(
        z_alloc_layout_with_alignment_new(
            Some(&mut layout),
            z_shm_provider_loan(Some(&p)),
            64,
            z_alloc_alignment_t {
                pow: usize::BITS as u8,
            },
        ),
        Z_EINVAL
    );
    // A layout with no provider is refused too.
    assert_eq!(z_alloc_layout_new(Some(&mut layout), None, 64), Z_ENULL);
    // The same size against the same provider is accepted.
    assert_eq!(
        z_alloc_layout_new(Some(&mut layout), z_shm_provider_loan(Some(&p)), 64),
        Z_OK
    );

    // Null everywhere else.
    assert!(!z_internal_precomputed_layout_check::<Shared>(None));
    let mut out = empty_narrow();
    z_precomputed_layout_alloc(Some(&mut out), None, None);
    assert_eq!(
        out.status, ZC_BUF_ALLOC_STATUS_ALLOC_ERROR,
        "a null layout must leave a well-formed failure, not the caller's stack"
    );
    z_precomputed_layout_drop::<Shared>(None);
    z_alloc_layout_drop::<Shared>(None);

    let mut moved_l = Moved { _this: layout };
    z_precomputed_layout_drop(Some(&mut moved_l));
    drop_provider(p);
}

/// The caller's alignment reaches the address, through every aligned spelling.
#[test]
fn every_aligned_spelling_honours_the_callers_alignment() {
    const POW: u8 = 6;
    let align = z_alloc_alignment_t { pow: POW };
    type Aligned = fn(
        Option<&mut z_buf_layout_alloc_result_t<Shared>>,
        Option<&z_owned_shm_provider_t<Shared>>,
        Option<&mut Backing>,
        usize,
        z_alloc_alignment_t,
    ) -> AllocProgress;
    let spellings: [(&str, Aligned); 4] = [
        ("alloc_gc_aligned", z_shm_provider_alloc_gc_aligned),
        (
            "alloc_gc_defrag_aligned",
            z_shm_provider_alloc_gc_defrag_aligned,
        ),
        (
            "alloc_gc_defrag_blocking_aligned",
            z_shm_provider_alloc_gc_defrag_blocking_aligned,
        ),
        (
            "alloc_gc_defrag_dealloc_aligned",
            z_shm_provider_alloc_gc_defrag_dealloc_aligned,
        ),
    ];
    for (name, f) in spellings {
        let p = provider(64 * 1024);
        let skewed = skew(&p);
        let mut out = empty_result();
        let shared = handle(&p);
        f(
            Some(&mut out),
            z_shm_provider_loan(Some(&p)),
            shared.backing.borrow_mut().as_mut(),
            128,
            align,
        );
        assert_eq!(
            out.status, ZC_BUF_LAYOUT_ALLOC_STATUS_OK,
            "{name} must allocate from a fresh 64K provider"
        );
        assert!(
            z_shm_mut_data(z_shm_mut_loan(Some(&out.buf))).is_some(),
            "{name} returned OK with no data"
        );
        assert_eq!(
            address(&out.buf) % (1usize << POW),
            0,
            "{name} did not honour the caller's alignment"
        );
        drop_buf(out.buf);
        drop_buf(skewed);
        drop_provider(p);
    }
}

/// The spellings that may deallocate allocate.
#[test]
fn the_dealloc_spellings_allocate() {
    let p = provider(64 * 1024);
    let mut out = empty_result();
    let shared = handle(&p);
    z_shm_provider_alloc_gc_defrag_dealloc(
        Some(&mut out),
        z_shm_provider_loan(Some(&p)),
        shared.backing.borrow_mut().as_mut(),
        256,
    );
    assert_eq!(out.status, ZC_BUF_LAYOUT_ALLOC_STATUS_OK);
    drop_buf(out.buf);
    drop_provider(p);
}

/// A layout reads back its size and its alignment.
#[test]
fn a_layout_round_trips_its_size_and_alignment() {
    let mut owned = Owned::null_value();
    assert!(!z_internal_memory_layout_check(Some(&owned)));
    assert_eq!(
        z_memory_layout_new(Some(&mut owned), 4096, z_alloc_alignment_t { pow: 6 }),
        Z_OK
    );
    assert!(z_internal_memory_layout_check(Some(&owned)));

    let loaned = z_memory_layout_loan(Some(&owned));
    let mut size = 0usize;
    let mut alignment = z_alloc_alignment_t { pow: 0 };
    z_memory_layout_get_data(loaned, Some(&mut size), Some(&mut alignment));
    assert_eq!(size, 4096);
    assert_eq!(alignment.pow, 6);

    // Each output may be left out.
    let mut only_size = 0usize;
    z_memory_layout_get_data(loaned, Some(&mut only_size), None);
    assert_eq!(only_size, 4096);

    let mut moved = Moved { _this: owned };
    z_memory_layout_drop(Some(&mut moved));
    assert!(!z_internal_memory_layout_check(Some(&moved._this)));
}

/// A layout that makes no sense is refused when it is built, and leaves a
/// gravestone.
#[test]
fn a_nonsense_layout_is_refused_at_construction() {
    let mut owned = Owned::null_value();
    assert_eq!(
        z_memory_layout_new(Some(&mut owned), 0, z_alloc_alignment_t { pow: 3 }),
        Z_EINVAL,
        "a zero-size layout is not a layout"
    );
    assert!(
        !z_internal_memory_layout_check(Some(&owned)),
        "and the refusal must leave a gravestone"
    );

    // An exponent at or past the pointer width names no alignment.
    assert_eq!(
        z_memory_layout_new(
            Some(&mut owned),
            64,
            z_alloc_alignment_t {
                pow: usize::BITS as u8,
            },
        ),
        Z_EINVAL
    );
    assert!(!z_internal_memory_layout_check(Some(&owned)));

    // The same size with an exponent that names one is accepted.
    assert_eq!(
        z_memory_layout_new(Some(&mut owned), 64, z_alloc_alignment_t { pow: 3 }),
        Z_OK
    );
    let mut moved = Moved { _this: owned };
    z_memory_layout_drop(Some(&mut moved));
}

/// Every accessor takes null, and a gravestone reads as absent.
#[test]
fn the_accessors_answer_without_dereferencing_null() {
    assert!(!z_internal_memory_layout_check(None));
    assert_eq!(
        z_memory_layout_new(None, 8, z_alloc_alignment_t { pow: 0 }),
        Z_ENULL
    );
    let mut size = 7usize;
    z_memory_layout_get_data(None, Some(&mut size), None);
    assert_eq!(size, 7, "a null layout must not write the outputs");
    z_memory_layout_drop(None);

    let mut grave = Owned::null_value();
    let loaned = z_memory_layout_loan(Some(&grave));
    z_memory_layout_get_data(loaned, Some(&mut size), None);
    assert_eq!(size, 7, "a gravestone carries no data to read");
    z_internal_memory_layout_null(Some(&mut grave));
    assert!(!z_internal_memory_layout_check(Some(&grave)));
}

fn chunk(start: usize, len: usize) -> ShmChunk<()> {
    ShmChunk {
        backing: ChunkBacking::Native {
            segment: Arc::new(()),
            start,
        },
        len,
        mutable: true,
    }
}

/// A provider whose chunks are released serves the same request forever.
#[test]
fn a_released_chunk_is_reusable_indefinitely() {
    let mut segment = Segment::new(4096);
    for _ in 0..64 {
        let start = segment
            .books()
            .claim(1024, 1)
            .expect("a 1024-byte chunk fits in a 4096-byte segment");
        let mut backing = Backing::Native(segment);
        assert!(release_chunk(chunk(start, 1024), &mut backing).is_none());
        segment = match backing {
            Backing::Native(segment) => segment,
            Backing::Foreign(_) => panic!("the books stay what they are"),
        };
    }
    assert_eq!(segment.books().available(), 4096);
}

/// Ranges that touch become one again.
#[test]
fn adjacent_frees_coalesce_back_into_one_range() {
    let mut segment = Segment::new(4096);
    let starts: Vec<usize> = (0..4)
        .map(|_| segment.books().claim(1024, 1).expect("quarter fits"))
        .collect();
    assert_eq!(segment.books().available(), 0);
    for start in starts {
        segment.release(start, 1024);
    }
    assert_eq!(segment.books().largest(), 4096);
    assert!(segment.books().claim(4096, 1).is_some());
}

/// Nothing is taken out of a segment for its own books.
#[test]
fn a_request_for_the_whole_segment_succeeds() {
    let mut segment = Segment::new(11);
    assert_eq!(segment.books().claim(11, 1), Some(0));
    assert_eq!(segment.books().available(), 0);
}

/// A segment of no bytes is legal, and there is nothing in it to claim.
#[test]
fn a_zero_length_segment_serves_a_zero_length_request() {
    let mut segment = Segment::new(0);
    assert_eq!(segment.books().available(), 0);
    assert_eq!(segment.books().claim(0, 1), None);
}

/// The bytes skipped for an alignment stay free.
#[test]
fn an_aligned_claim_leaves_the_alignment_gap_free() {
    let mut segment = Segment::new(4096);
    // Take one byte so that the next range starts at an odd offset.
    let head = segment.books().claim(1, 1).expect("one byte fits");
    assert_eq!(head, 0);
    let aligned = segment.books().claim(16, 64).expect("64-aligned fits");
    assert_eq!(aligned % 64, 0);
    assert_eq!(aligned, 64);
    // 4096 - 1 (head) - 16 (chunk) = 4079, so the 63-byte gap is still free.
    assert_eq!(segment.books().available(), 4079);
}

/// Freezing a buffer keeps its range.
#[test]
fn freezing_keeps_the_range_and_clears_mutability() {
    let mut segment = Segment::new(64);
    let start = segment.books().claim(8, 1).expect("fits");
    let mut chunk = chunk(start, 8);
    assert!(chunk.mutable);
    chunk.mutable = false;
    assert!(matches!(
        chunk.backing,
        ChunkBacking::Native { start: at, .. } if at == start
    ));
    assert_eq!(segment.books().available(), 56);

    // A buffer that was made of a mutable one cannot be changed any more.
    chunk.mutable = true;
    let mut moved = Moved {
        _this: Owned::from_state(chunk),
    };
    let mut frozen = Owned::null_value();
    z_shm_from_mut(Some(&mut frozen), Some(&mut moved));
    assert!(!z_internal_shm_mut_check(Some(&moved._this)));
    assert!(z_internal_shm_check(Some(&frozen)));
    assert!(z_shm_try_reloan_mut(Some(&mut frozen)).is_none());
    assert_eq!(
        z_shm_data(z_shm_loan(Some(&frozen))),
        Some(DataPlace::InSegment(start))
    );
    assert_eq!(z_shm_len(Some(&frozen)), 8);
}

/// The segment id this allocator stamps into every descriptor.
const SEGMENT_ID: u32 = 7;
/// What defragmenting answers: a number that no books could produce.
const DEFRAGMENT_ANSWER: usize = 0xDEF7A6;
/// Where the allocator's memory is said to start.
const ARENA: usize = 0x4000_0000;

/// A caller-supplied allocator, with what a test needs to know of it.
struct Harness {
    used: Vec<bool>,
    slot_len: usize,
    alloc_calls: usize,
    layouts_seen: Vec<(usize, u8)>,
    freed: Vec<(u32, u32, usize)>,
    segment_drops: Rc<Cell<usize>>,
    always_fail: bool,
    under_deliver: bool,
}

impl Harness {
    fn new(slots: usize, slot_len: usize) -> Self {
        Self {
            used: vec![false; slots],
            slot_len,
            alloc_calls: 0,
            layouts_seen: Vec::new(),
            freed: Vec::new(),
            segment_drops: Rc::new(Cell::new(0)),
            always_fail: false,
            under_deliver: false,
        }
    }

    fn owns(&self, address: usize, len: usize) -> bool {
        address >= ARENA && address + len <= ARENA + self.used.len() * self.slot_len
    }

    fn pointer(&self, slot: usize) -> z_owned_ptr_in_segment_t<Shared> {
        let drops = self.segment_drops.clone();
        let mut ptr = Owned::null_value();
        z_ptr_in_segment_new(
            Some(&mut ptr),
            ARENA + slot * self.slot_len,
            context(),
            move |_| Shared {
                backing: RefCell::new(None),
                deleted: Some(drops),
            },
        );
        ptr
    }

    /// Serves a request, as the callback would.
    fn serve(&mut self, layout: MemoryLayoutState) -> Option<ChunkAllocResult<Shared>> {
        let loaned = Owned::from_state(layout);
        let mut size = 0usize;
        let mut alignment = z_alloc_alignment_t { pow: 0 };
        z_memory_layout_get_data(Some(&loaned), Some(&mut size), Some(&mut alignment));
        self.alloc_calls += 1;
        self.layouts_seen.push((size, alignment.pow));
        let slot = if self.always_fail {
            None
        } else {
            self.used
                .iter()
                .position(|used| !used)
                .filter(|_| self.under_deliver || size <= self.slot_len)
        };
        let mut out = Owned::null_value();
        match slot {
            None => z_chunk_alloc_result_new_error(Some(&mut out), Z_ALLOC_ERROR_OUT_OF_MEMORY),
            Some(slot) => {
                self.used[slot] = true;
                let mut moved = Moved {
                    _this: self.pointer(slot),
                };
                let code = z_chunk_alloc_result_new_ok(
                    Some(&mut out),
                    z_allocated_chunk_t {
                        descriptpr: self.descriptor(slot),
                        ptr: Some(&mut moved),
                    },
                );
                assert_eq!(code, Z_OK);
            }
        }
        out.state
    }

    fn descriptor(&self, slot: usize) -> z_chunk_descriptor_t {
        z_chunk_descriptor_t {
            segment: SEGMENT_ID,
            chunk: slot as u32,
            len: self.slot_len,
        }
    }

    /// Takes a chunk back, as the callback would.
    fn free(&mut self, back: GiveBack<Shared>) {
        let d = back.descriptor;
        self.freed.push((d.segment, d.chunk, d.len));
        self.used[d.chunk as usize] = false;
    }

    fn available(&self) -> usize {
        self.used.iter().filter(|used| !**used).count() * self.slot_len
    }
}

fn context() -> zc_threadsafe_context_t {
    zc_threadsafe_context_t {
        context: zc_threadsafe_context_data_t { ptr: 0x99 },
        delete_fn: Some(0x98),
    }
}

fn callbacks() -> zc_shm_provider_backend_callbacks_t {
    zc_shm_provider_backend_callbacks_t {
        alloc_fn: Some(1),
        free_fn: Some(2),
        defragment_fn: Some(3),
        available_fn: Some(4),
        layout_for_fn: Some(5),
        id_fn: Some(6),
    }
}

/// Installs an allocator, and counts how often its context is deleted.
fn install(threadsafe: bool) -> (z_owned_shm_provider_t<Shared>, Rc<Cell<usize>>) {
    let deleted = Rc::new(Cell::new(0));
    let count = deleted.clone();
    let make = move |backing: Backing, _: DroppableContext| Shared {
        backing: RefCell::new(Some(backing)),
        deleted: Some(count),
    };
    let mut provider = Owned::null_value();
    if threadsafe {
        z_shm_provider_threadsafe_new(Some(&mut provider), context(), callbacks(), make);
    } else {
        z_shm_provider_new(
            Some(&mut provider),
            zc_context_t {
                context: 0x99,
                delete_fn: Some(0x98),
            },
            callbacks(),
            make,
        );
    }
    assert!(z_internal_shm_provider_check(Some(&provider)));
    (provider, deleted)
}

/// Ends an attempt that asks the allocator.
fn finish(
    harness: &mut Harness,
    shared: &Arc<Shared>,
    out: &mut z_buf_layout_alloc_result_t<Shared>,
    progress: AllocProgress,
    size: usize,
    blocking: bool,
) -> AllocProgress {
    let layout = match progress {
        AllocProgress::Ask(layout) => layout,
        other => return other,
    };
    let reply = harness.serve(layout);
    let mut backing = shared.backing.borrow_mut();
    let (progress, back) = match backing.as_mut().unwrap() {
        Backing::Foreign(backend) => {
            provider_alloc_reply(out, shared, backend, size, blocking, reply)
        }
        Backing::Native(_) => panic!("a segment asks nobody"),
    };
    if let Some(back) = back {
        harness.free(back);
    }
    progress
}

fn allocate(
    harness: &mut Harness,
    provider: &z_owned_shm_provider_t<Shared>,
    size: usize,
) -> z_buf_layout_alloc_result_t<Shared> {
    let mut out = empty_result();
    let shared = handle(provider);
    let progress = z_shm_provider_alloc(
        Some(&mut out),
        z_shm_provider_loan(Some(provider)),
        shared.backing.borrow_mut().as_mut(),
        size,
    );
    assert!(matches!(
        finish(harness, &shared, &mut out, progress, size, false),
        AllocProgress::Done
    ));
    out
}

fn available(harness: &Harness, provider: &z_owned_shm_provider_t<Shared>) -> usize {
    let shared = handle(provider);
    let figure = z_shm_provider_available(Some(provider), shared.backing.borrow().as_ref());
    match figure {
        Figure::Known(n) => n,
        Figure::AskBackend => harness.available(),
    }
}

/// The request reaches the allocator, its memory reaches the caller, and the
/// release reaches the allocator.
#[test]
fn a_foreign_backend_serves_the_allocation_and_the_release() {
    let mut harness = Harness::new(4, 256);
    let (provider, deleted) = install(false);
    let mut out = allocate(&mut harness, &provider, 64);
    assert_eq!(out.status, ZC_BUF_LAYOUT_ALLOC_STATUS_OK);

    let place = z_shm_mut_data_mut(z_shm_mut_loan_mut(Some(&mut out.buf)).as_deref());
    match place {
        Some(DataPlace::At(address)) => assert!(
            harness.owns(address, 64),
            "the buffer must be the allocator's memory"
        ),
        _ => panic!("the buffer must be the allocator's memory"),
    }
    assert_eq!(z_shm_mut_len(Some(&out.buf)), 64);

    assert_eq!(harness.alloc_calls, 1);
    assert_eq!(
        harness.layouts_seen,
        vec![(64usize, 0u8)],
        "the caller's size must reach the backend as a layout"
    );
    assert!(harness.freed.is_empty(), "nothing is released while it is held");

    let back = drop_buf(out.buf).expect("the chunk goes back");
    harness.free(back);
    assert_eq!(
        harness.freed,
        vec![(SEGMENT_ID, 0, 256)],
        "the backend must get back the descriptor it issued"
    );
    assert_eq!(
        harness.segment_drops.get(),
        1,
        "the chunk's segment context is released with the chunk"
    );

    drop_provider(provider);
    assert_eq!(
        deleted.get(),
        1,
        "the provider owes the context exactly one delete_fn"
    );
}

/// How much is free, and what defragmenting gives, the allocator says.
#[test]
fn available_and_defragment_are_answered_by_the_backend() {
    let mut harness = Harness::new(4, 256);
    let (provider, _) = install(false);
    assert_eq!(available(&harness, &provider), 4 * 256);
    let shared = handle(&provider);
    let figure = z_shm_provider_defragment(Some(&provider), shared.backing.borrow().as_ref());
    let answer = match figure {
        Figure::Known(n) => n,
        Figure::AskBackend => DEFRAGMENT_ANSWER,
    };
    assert_eq!(answer, DEFRAGMENT_ANSWER);

    let out = allocate(&mut harness, &provider, 16);
    assert_eq!(out.status, ZC_BUF_LAYOUT_ALLOC_STATUS_OK);
    assert_eq!(
        available(&harness, &provider),
        3 * 256,
        "the backend's own accounting must be what is reported"
    );
    let back = drop_buf(out.buf).unwrap();
    harness.free(back);
    drop_provider(provider);
}

/// The caller's alignment reaches the allocator.
#[test]
fn the_callers_alignment_reaches_the_backend() {
    let mut harness = Harness::new(2, 512);
    let (provider, _) = install(false);
    let mut out = empty_result();
    let shared = handle(&provider);
    let progress = z_shm_provider_alloc_aligned(
        Some(&mut out),
        z_shm_provider_loan(Some(&provider)),
        shared.backing.borrow_mut().as_mut(),
        128,
        z_alloc_alignment_t { pow: 6 },
    );
    finish(&mut harness, &shared, &mut out, progress, 128, false);
    assert_eq!(out.status, ZC_BUF_LAYOUT_ALLOC_STATUS_OK);
    assert_eq!(harness.layouts_seen, vec![(128usize, 6u8)]);
    let back = drop_buf(out.buf).unwrap();
    harness.free(back);
    drop_provider(provider);
}

/// The allocator's refusal is the caller's.
#[test]
fn the_backends_refusal_is_the_callers_refusal() {
    let mut harness = Harness::new(1, 128);
    let (provider, _) = install(false);
    let out = allocate(&mut harness, &provider, 4096);
    assert_eq!(out.status, ZC_BUF_LAYOUT_ALLOC_STATUS_ALLOC_ERROR);
    assert_eq!(out.alloc_error, Z_ALLOC_ERROR_OUT_OF_MEMORY);
    assert_eq!(
        harness.alloc_calls, 1,
        "the refusal must come from the backend"
    );
    assert_eq!(available(&harness, &provider), 128);
    drop_provider(provider);
}

/// A chunk shorter than asked for is refused and goes back.
#[test]
fn a_backend_that_under_delivers_is_refused_and_the_chunk_returned() {
    let mut harness = Harness::new(1, 16);
    harness.under_deliver = true;
    let (provider, _) = install(false);
    let out = allocate(&mut harness, &provider, 64);
    assert_eq!(
        harness.alloc_calls, 1,
        "the backend must have been asked"
    );
    assert_eq!(out.status, ZC_BUF_LAYOUT_ALLOC_STATUS_ALLOC_ERROR);
    assert!(
        !z_internal_shm_mut_check(Some(&out.buf)),
        "a refused allocation must leave a gravestone"
    );
    assert_eq!(
        harness.freed,
        vec![(SEGMENT_ID, 0, 16)],
        "the chunk that was refused must go back to the backend"
    );
    drop_provider(provider);
}

/// Ends a job's attempt that asks the allocator.
fn finish_job(
    harness: &mut Harness,
    shared: &Arc<Shared>,
    out: &mut z_buf_layout_alloc_result_t<Shared>,
    progress: AllocProgress,
    job: &AsyncJob<Shared>,
) -> AllocProgress {
    let layout = match progress {
        AllocProgress::Ask(layout) => layout,
        other => return other,
    };
    let reply = harness.serve(layout);
    let mut backing = shared.backing.borrow_mut();
    let (progress, back) = match backing.as_mut().unwrap() {
        Backing::Foreign(backend) => job.reply(out, backend, reply),
        Backing::Native(_) => panic!("a segment asks nobody"),
    };
    if let Some(back) = back {
        harness.free(back);
    }
    progress
}

fn outstanding(provider: &z_owned_shm_provider_t<Shared>) -> usize {
    match handle(provider).backing.borrow().as_ref().unwrap() {
        Backing::Foreign(backend) => backend.live,
        Backing::Native(_) => panic!("a segment counts no chunks"),
    }
}

#[test]
fn a_refused_chunk_was_never_outstanding() {
    let mut harness = Harness::new(2, 16);
    harness.under_deliver = true;
    let (provider, _) = install(false);
    let held = allocate(&mut harness, &provider, 16);
    assert_eq!(held.status, ZC_BUF_LAYOUT_ALLOC_STATUS_OK);
    assert_eq!(outstanding(&provider), 1);
    // A short chunk goes back, and the one that is out is still out.
    let refused = allocate(&mut harness, &provider, 64);
    assert_eq!(refused.status, ZC_BUF_LAYOUT_ALLOC_STATUS_ALLOC_ERROR);
    assert_eq!(refused.alloc_error, Z_ALLOC_ERROR_OTHER);
    assert_eq!(harness.freed, vec![(SEGMENT_ID, 1, 16)]);
    assert_eq!(outstanding(&provider), 1);
    // So a blocking request still has something to wait for.
    let shared = handle(&provider);
    let mut out = empty_result();
    let progress = z_shm_provider_alloc_gc_defrag_blocking(
        Some(&mut out),
        Some(&provider),
        shared.backing.borrow_mut().as_mut(),
        64,
    );
    assert!(matches!(
        finish(&mut harness, &shared, &mut out, progress, 64, true),
        AllocProgress::Wait
    ));
    let back = drop_buf(held.buf).unwrap();
    harness.free(back);
    assert_eq!(outstanding(&provider), 0);
}

#[test]
fn a_refused_chunk_of_a_copy_was_never_outstanding() {
    let mut harness = Harness::new(2, 16);
    let (provider, _) = install(false);
    let held = allocate(&mut harness, &provider, 16);
    let mut copy = Owned::null_value();
    let shared = handle(&provider);
    harness.slot_len = 8;
    harness.under_deliver = true;
    let progress = z_shm_clone(
        Some(&mut copy),
        Some(&held.buf),
        shared.backing.borrow_mut().as_mut(),
    );
    let layout = match progress {
        CloneProgress::Ask(layout) => layout,
        CloneProgress::Done => panic!("the allocator is asked"),
    };
    let reply = harness.serve(layout);
    let back = match shared.backing.borrow_mut().as_mut().unwrap() {
        Backing::Foreign(backend) => z_shm_clone_reply(&mut copy, &shared, backend, 16, reply),
        Backing::Native(_) => panic!("a segment asks nobody"),
    };
    assert!(back.is_some() && copy.state.is_none());
    assert_eq!(outstanding(&provider), 1);
}

/// The context of an allocation on another thread.
fn signals() -> zc_threadsafe_context_t {
    zc_threadsafe_context_t {
        context: zc_threadsafe_context_data_t { ptr: 0x5150 },
        delete_fn: Some(0x60),
    }
}

const DELETED: Option<DropCall> = Some(DropCall {
    drop: 0x60,
    context: 0x5150,
});

const CALLED: Invocation = Invocation {
    call: 0x70,
    context: 0x5150,
};

#[test]
fn a_context_is_deleted_once_whatever_comes_of_the_request() {
    let (provider, _) = install(true);
    let shared = handle(&provider);
    let out = empty_result();
    let narrow = empty_narrow();
    let ask = |place, provider, callback| {
        z_shm_provider_alloc_gc_defrag_async(
            place,
            provider,
            shared.backing.borrow().as_ref(),
            8,
            signals(),
            callback,
        )
    };
    for refused in [
        ask(None, Some(&provider), Some(0x70)),
        ask(Some(&out), None, Some(0x70)),
        ask(Some(&out), Some(&provider), None),
        z_alloc_layout_threadsafe_alloc_gc_defrag_async(
            Some(&narrow),
            None,
            shared.backing.borrow().as_ref(),
            signals(),
            Some(0x70),
        ),
    ] {
        assert_eq!(refused.code, Z_ENULL);
        assert_eq!(refused.due, DELETED);
        assert!(refused.job.is_none());
    }
    let served = ask(Some(&out), Some(&provider), Some(0x70));
    assert_eq!((served.code, served.due), (Z_OK, None));
    let end = served.job.unwrap().finish();
    assert_eq!((end.call, end.due), (CALLED, DELETED));
}

#[test]
fn a_job_that_is_turned_down_waits_for_a_chunk() {
    let mut harness = Harness::new(1, 16);
    let (provider, _) = install(true);
    let held = allocate(&mut harness, &provider, 16);
    let shared = handle(&provider);
    let mut out = empty_result();
    let start = z_shm_provider_alloc_gc_defrag_async(
        Some(&out),
        Some(&provider),
        shared.backing.borrow().as_ref(),
        8,
        signals(),
        Some(0x70),
    );
    let job = start.job.unwrap();
    let progress = job.attempt(&mut out, shared.backing.borrow_mut().as_mut().unwrap());
    assert!(matches!(
        finish_job(&mut harness, &shared, &mut out, progress, &job),
        AllocProgress::Wait
    ));
    let back = drop_buf(held.buf).unwrap();
    harness.free(back);
    let progress = job.attempt(&mut out, shared.backing.borrow_mut().as_mut().unwrap());
    assert!(matches!(
        finish_job(&mut harness, &shared, &mut out, progress, &job),
        AllocProgress::Done
    ));
    assert_eq!(out.status, ZC_BUF_LAYOUT_ALLOC_STATUS_OK);
}

#[test]
fn an_empty_segment_is_out_of_memory() {
    let mut segment = Segment::new(0);
    match native_alloc(&mut segment, 0, 1, false) {
        AllocStep::Refused(reason) => assert_eq!(reason, Z_ALLOC_ERROR_OUT_OF_MEMORY),
        _ => panic!("there is nothing to serve from"),
    }
    let p = provider(0);
    let shared = handle(&p);
    let mut out = empty_result();
    z_shm_provider_alloc(
        Some(&mut out),
        Some(&p),
        shared.backing.borrow_mut().as_mut(),
        0,
    );
    assert_eq!(out.alloc_error, Z_ALLOC_ERROR_OUT_OF_MEMORY);
    // A full segment has room for a request of no bytes, in no range.
    let mut full = Segment::new(8);
    assert!(matches!(native_alloc(&mut full, 8, 1, false), AllocStep::Ready(0)));
    match native_alloc(&mut full, 0, 1, false) {
        AllocStep::Refused(reason) => assert_eq!(reason, Z_ALLOC_ERROR_NEED_DEFRAGMENT),
        _ => panic!("there is no range to serve from"),
    }
    match native_alloc(&mut full, 1, 1, false) {
        AllocStep::Refused(reason) => assert_eq!(reason, Z_ALLOC_ERROR_OUT_OF_MEMORY),
        _ => panic!("there is no range to serve from"),
    }
}

/// A request that may wait waits only where a release can come.
#[test]
fn a_blocking_request_waits_only_when_a_release_can_come() {
    let blocking = |harness: &mut Harness, provider: &z_owned_shm_provider_t<Shared>| {
        let mut out = empty_result();
        let shared = handle(provider);
        let progress = z_shm_provider_alloc_gc_defrag_blocking(
            Some(&mut out),
            z_shm_provider_loan(Some(provider)),
            shared.backing.borrow_mut().as_mut(),
            32,
        );
        let progress = finish(harness, &shared, &mut out, progress, 32, true);
        (out, progress)
    };

    // Nothing is outstanding: the request ends.
    let mut harness = Harness::new(1, 64);
    harness.always_fail = true;
    let (provider, _) = install(false);
    let (out, progress) = blocking(&mut harness, &provider);
    assert!(matches!(progress, AllocProgress::Done));
    assert_eq!(
        out.status, ZC_BUF_LAYOUT_ALLOC_STATUS_ALLOC_ERROR,
        "a blocking allocation with no live chunk has nothing to wait for"
    );
    drop_provider(provider);

    // With a chunk outstanding the same request waits, and is served once the
    // chunk is released.
    let mut harness = Harness::new(1, 64);
    let (provider, _) = install(false);
    let held = allocate(&mut harness, &provider, 32);
    assert_eq!(held.status, ZC_BUF_LAYOUT_ALLOC_STATUS_OK);
    let (_, progress) = blocking(&mut harness, &provider);
    assert!(
        matches!(progress, AllocProgress::Wait),
        "the blocking call must wait while a release is still possible"
    );
    let back = drop_buf(held.buf).unwrap();
    harness.free(back);
    let (out, progress) = blocking(&mut harness, &provider);
    assert!(matches!(progress, AllocProgress::Done));
    assert_eq!(
        out.status, ZC_BUF_LAYOUT_ALLOC_STATUS_OK,
        "the release must let the waiter through"
    );
    assert!(harness.alloc_calls >= 2);
    let back = drop_buf(out.buf).unwrap();
    harness.free(back);
    drop_provider(provider);
}

/// Copies of a pointer share what keeps it valid.
#[test]
fn a_pointer_in_segment_clone_shares_its_segment() {
    let harness = Harness::new(1, 1);
    let drops = harness.segment_drops.clone();
    let owned = harness.pointer(0);
    assert!(z_internal_ptr_in_segment_check(Some(&owned)));

    let mut copy = Owned::null_value();
    z_ptr_in_segment_clone(Some(&mut copy), z_ptr_in_segment_loan(Some(&owned)));
    assert!(z_internal_ptr_in_segment_check(Some(&copy)));

    let mut moved = Moved { _this: owned };
    z_ptr_in_segment_drop(Some(&mut moved));
    assert!(!z_internal_ptr_in_segment_check(Some(&moved._this)));
    assert_eq!(drops.get(), 0, "the segment is still held by the clone");

    let mut moved_copy = Moved { _this: copy };
    z_ptr_in_segment_drop(Some(&mut moved_copy));
    assert_eq!(
        drops.get(),
        1,
        "and released exactly once when the last copy goes"
    );

    // Null is taken everywhere.
    assert!(!z_internal_ptr_in_segment_check::<Shared>(None));
    z_ptr_in_segment_drop::<Shared>(None);
    let mut grave: z_owned_ptr_in_segment_t<Shared> = Owned::null_value();
    z_ptr_in_segment_clone(Some(&mut grave), None);
    assert!(!z_internal_ptr_in_segment_check(Some(&grave)));
    z_internal_ptr_in_segment_null(Some(&mut grave));
}

/// A report holds either outcome, and takes the pointer that it is given.
#[test]
fn a_chunk_alloc_result_carries_either_outcome() {
    let harness = Harness::new(4, 32);
    let drops = harness.segment_drops.clone();
    let mut moved = Moved {
        _this: harness.pointer(0),
    };

    let mut ok = Owned::null_value();
    assert!(!z_internal_chunk_alloc_result_check(Some(&ok)));
    let rc = z_chunk_alloc_result_new_ok(
        Some(&mut ok),
        z_allocated_chunk_t {
            descriptpr: harness.descriptor(3),
            ptr: Some(&mut moved),
        },
    );
    assert_eq!(rc, Z_OK);
    assert!(z_internal_chunk_alloc_result_check(Some(&ok)));
    assert!(
        !z_internal_ptr_in_segment_check(Some(&moved._this)),
        "taking the chunk must leave a gravestone"
    );

    // The same pointer, empty now, is refused.
    let mut again = Owned::null_value();
    let rc = z_chunk_alloc_result_new_ok(
        Some(&mut again),
        z_allocated_chunk_t {
            descriptpr: harness.descriptor(3),
            ptr: Some(&mut moved),
        },
    );
    assert_eq!(rc, Z_EINVAL);
    assert!(!z_internal_chunk_alloc_result_check(Some(&again)));

    let mut moved_ok = Moved { _this: ok };
    z_chunk_alloc_result_drop(Some(&mut moved_ok));
    assert!(!z_internal_chunk_alloc_result_check(Some(&moved_ok._this)));
    assert_eq!(
        drops.get(),
        1,
        "dropping the result releases the pointer it took"
    );

    let mut err: z_owned_chunk_alloc_result_t<Shared> = Owned::null_value();
    z_chunk_alloc_result_new_error(Some(&mut err), Z_ALLOC_ERROR_NEED_DEFRAGMENT);
    assert!(z_internal_chunk_alloc_result_check(Some(&err)));
    let mut moved_err = Moved { _this: err };
    z_chunk_alloc_result_drop(Some(&mut moved_err));

    // Null is taken.
    assert!(!z_internal_chunk_alloc_result_check::<Shared>(None));
    z_chunk_alloc_result_drop::<Shared>(None);
    z_chunk_alloc_result_new_error::<Shared>(None, Z_ALLOC_ERROR_OTHER);
    let mut grave: z_owned_chunk_alloc_result_t<Shared> = Owned::null_value();
    z_internal_chunk_alloc_result_null(Some(&mut grave));
    assert!(!z_internal_chunk_alloc_result_check(Some(&grave)));
}

/// A chunk of the provider's own allocator is adopted, and no other.
#[test]
fn map_adopts_a_backend_chunk_and_refuses_a_native_provider() {
    let mut harness = Harness::new(2, 128);
    let (provider, _) = install(false);

    let mut moved = Moved {
        _this: harness.pointer(0),
    };
    let mut buf = Owned::null_value();
    let shared = handle(&provider);
    let rc = z_shm_provider_map(
        Some(&mut buf),
        z_shm_provider_loan(Some(&provider)),
        shared.backing.borrow_mut().as_mut(),
        z_allocated_chunk_t {
            descriptpr: harness.descriptor(0),
            ptr: Some(&mut moved),
        },
        96,
    );
    assert_eq!(rc, Z_OK);
    let loaned = z_shm_mut_loan(Some(&buf));
    assert_eq!(z_shm_mut_len(loaned), 96);
    assert_eq!(
        z_shm_mut_data(loaned),
        Some(DataPlace::At(ARENA)),
        "the mapped buffer must be the chunk's own memory"
    );
    let back = drop_buf(buf).unwrap();
    harness.free(back);
    assert_eq!(
        harness.freed,
        vec![(SEGMENT_ID, 0, 128)],
        "a mapped chunk is released to the backend like an allocated one"
    );

    // A length beyond the chunk is refused.
    let mut moved = Moved {
        _this: harness.pointer(1),
    };
    let mut buf = Owned::null_value();
    let rc = z_shm_provider_map(
        Some(&mut buf),
        z_shm_provider_loan(Some(&provider)),
        shared.backing.borrow_mut().as_mut(),
        z_allocated_chunk_t {
            descriptpr: harness.descriptor(1),
            ptr: Some(&mut moved),
        },
        129,
    );
    assert_eq!(rc, Z_EINVAL);
    assert!(!z_internal_shm_mut_check(Some(&buf)));

    // A provider on a segment cannot have issued such a chunk.
    let native = self::provider(4096);
    let mut moved = Moved {
        _this: harness.pointer(1),
    };
    let mut buf = Owned::null_value();
    let shared = handle(&native);
    let rc = z_shm_provider_map(
        Some(&mut buf),
        z_shm_provider_loan(Some(&native)),
        shared.backing.borrow_mut().as_mut(),
        z_allocated_chunk_t {
            descriptpr: harness.descriptor(1),
            ptr: Some(&mut moved),
        },
        96,
    );
    assert_eq!(rc, Z_EINVAL);
    assert!(
        !z_internal_ptr_in_segment_check(Some(&moved._this)),
        "the pointer was passed by value, so a refusal must still consume it"
    );
    drop_provider(native);
    drop_provider(provider);
}

/// An allocation that runs elsewhere needs an allocator that may run anywhere.
#[test]
fn the_async_spellings_split_on_the_threadsafe_promise() {
    let mut harness = Harness::new(2, 256);
    let (provider, _) = install(false);
    let out = empty_result();
    let shared = handle(&provider);
    let start = z_shm_provider_alloc_gc_defrag_async(
        Some(&out),
        z_shm_provider_loan(Some(&provider)),
        shared.backing.borrow().as_ref(),
        64,
        signals(),
        Some(0x70),
    );
    assert_eq!(
        start.code, Z_EINVAL,
        "a provider built by z_shm_provider_new made no thread-safety promise"
    );
    assert_eq!(
        start.due, DELETED,
        "the context is passed by value, so a refusal must still delete it"
    );
    assert!(
        start.job.is_none(),
        "a refused async call must not run the result callback"
    );
    assert_eq!(harness.alloc_calls, 0);
    drop_provider(provider);

    let (provider, _) = install(true);
    let mut out = empty_result();
    let shared = handle(&provider);
    let start = z_shm_provider_alloc_gc_defrag_aligned_async(
        Some(&out),
        z_shm_provider_loan(Some(&provider)),
        shared.backing.borrow().as_ref(),
        64,
        z_alloc_alignment_t { pow: 5 },
        signals(),
        Some(0x70),
    );
    assert_eq!(start.code, Z_OK);
    assert_eq!(start.due, None, "the context is the job's until it ends");
    let job = start.job.unwrap();
    let progress = job.attempt(&mut out, shared.backing.borrow_mut().as_mut().unwrap());
    let progress = finish_job(&mut harness, &shared, &mut out, progress, &job);
    assert!(matches!(progress, AllocProgress::Done));
    let end = job.finish();
    assert_eq!(end.call, CALLED, "the callback gets the context");
    assert_eq!(out.status, ZC_BUF_LAYOUT_ALLOC_STATUS_OK);
    assert_eq!(end.due, DELETED);
    assert_eq!(
        harness.layouts_seen,
        vec![(64usize, 5u8)],
        "the async spelling must forward the caller's alignment too"
    );
    let back = drop_buf(out.buf).unwrap();
    harness.free(back);
    drop_provider(provider);
}

/// The spellings on a layout split in the same way.
#[test]
fn the_layout_async_spellings_split_on_the_same_promise() {
    for (threadsafe, expected) in [(false, Z_EINVAL), (true, Z_OK)] {
        let mut harness = Harness::new(2, 256);
        let (provider, _) = install(threadsafe);
        let mut layout = Owned::null_value();
        assert_eq!(
            z_alloc_layout_new(Some(&mut layout), z_shm_provider_loan(Some(&provider)), 48),
            Z_OK
        );
        let mut out = empty_narrow();
        let shared = handle(&provider);
        let start = z_alloc_layout_threadsafe_alloc_gc_defrag_async(
            Some(&out),
            z_alloc_layout_loan(Some(&layout)),
            shared.backing.borrow().as_ref(),
            signals(),
            Some(0x70),
        );
        assert_eq!(start.code, expected, "threadsafe = {threadsafe}");
        if expected == Z_OK {
            assert_eq!(start.due, None);
            let job = start.job.unwrap();
            let progress =
                job.attempt_bound(&mut out, shared.backing.borrow_mut().as_mut().unwrap());
            let layout = match progress {
                AllocProgress::Ask(layout) => layout,
                _ => panic!("the allocator is asked"),
            };
            let reply = harness.serve(layout);
            let mut backing = shared.backing.borrow_mut();
            let backend = match backing.as_mut().unwrap() {
                Backing::Foreign(backend) => backend,
                Backing::Native(_) => panic!("a segment asks nobody"),
            };
            let (progress, back) = job.reply_bound(&mut out, backend, reply);
            assert!(matches!(progress, AllocProgress::Done) && back.is_none());
            let end = job.finish();
            assert_eq!((end.call, end.due), (CALLED, DELETED));
            assert_eq!(out.status, ZC_BUF_ALLOC_STATUS_OK);
            drop(backing);
            let back = drop_buf(out.buf).unwrap();
            harness.free(back);
        } else {
            assert_eq!(start.due, DELETED);
            assert!(start.job.is_none());
        }
        let mut moved = Moved { _this: layout };
        z_precomputed_layout_drop(Some(&mut moved));
        drop_provider(provider);
    }
}

/// A segment is as long and as aligned as its layout says.
#[test]
fn the_posix_constructors_size_and_align_their_segment() {
    let mut plain = Owned::null_value();
    assert_eq!(z_posix_shm_provider_new(Some(&mut plain), 4096, mint), Z_OK);
    let shared = handle(&plain);
    assert!(matches!(
        z_shm_provider_available(
            z_shm_provider_loan(Some(&plain)),
            shared.backing.borrow().as_ref()
        ),
        Figure::Known(4096)
    ));
    drop_provider(plain);

    const POW: u8 = 13;
    let mut layout = Owned::null_value();
    assert_eq!(
        z_memory_layout_new(
            Some(&mut layout),
            64 * 1024,
            z_alloc_alignment_t { pow: POW }
        ),
        Z_OK
    );
    let mut provider = Owned::null_value();
    assert_eq!(
        z_posix_shm_provider_with_layout_new(
            Some(&mut provider),
            z_memory_layout_loan(Some(&layout)),
            mint
        ),
        Z_OK
    );
    let shared = handle(&provider);
    match provider.state.as_ref().unwrap() {
        Provider::Native(shared) => match shared.backing.borrow().as_ref().unwrap() {
            Backing::Native(segment) => {
                assert_eq!(segment.len, 64 * 1024);
                assert_eq!(
                    segment.align,
                    1usize << POW,
                    "a constructor that ignored the layout would leave SEGMENT_ALIGN"
                );
                assert_eq!((ADDRESS + segment.base) % (1usize << POW), 0);
            }
            Backing::Foreign(_) => panic!("the books of a segment are a segment's"),
        },
        Provider::Foreign(_) => panic!("the POSIX constructor builds a native provider"),
    }

    // An allocation at that alignment reaches an aligned address.
    let skewed = skew(&provider);
    let mut out = empty_result();
    z_shm_provider_alloc_aligned(
        Some(&mut out),
        z_shm_provider_loan(Some(&provider)),
        shared.backing.borrow_mut().as_mut(),
        128,
        z_alloc_alignment_t { pow: POW },
    );
    assert_eq!(out.status, ZC_BUF_LAYOUT_ALLOC_STATUS_OK);
    assert_eq!(address(&out.buf) % (1usize << POW), 0);
    drop_buf(out.buf);
    drop_buf(skewed);
    drop_provider(provider);
    let mut moved = Moved { _this: layout };
    z_memory_layout_drop(Some(&mut moved));

    // Null is refused.
    let mut grave: z_owned_shm_provider_t<Shared> = Owned::null_value();
    assert_eq!(
        z_posix_shm_provider_with_layout_new(Some(&mut grave), None, mint),
        Z_ENULL
    );
    assert!(!z_internal_shm_provider_check(Some(&grave)));
    assert_eq!(z_posix_shm_provider_new::<Shared, _>(None, 8, mint), Z_ENULL);
}

/// An allocator stays until the last buffer is gone.
#[test]
fn a_foreign_buffer_outlives_its_provider_handle() {
    let mut harness = Harness::new(2, 128);
    let (provider, deleted) = install(false);
    let out = allocate(&mut harness, &provider, 64);
    assert_eq!(out.status, ZC_BUF_LAYOUT_ALLOC_STATUS_OK);
    drop_provider(provider);
    assert_eq!(deleted.get(), 0, "a live buffer still holds the backend");
    assert_eq!(z_shm_mut_len(z_shm_mut_loan(Some(&out.buf))), 64);
    let back = drop_buf(out.buf).unwrap();
    harness.free(back);
    assert_eq!(deleted.get(), 1);
}

/// A context that is passed by value is deleted even where there is no place for
/// what it was passed for.
#[test]
fn a_refused_constructor_still_deletes_the_context() {
    let deleted = Rc::new(Cell::new(0));
    let tag = |deleted: &Rc<Cell<usize>>| {
        let count = deleted.clone();
        Shared {
            backing: RefCell::new(None),
            deleted: Some(count),
        }
    };
    z_shm_provider_new(
        None,
        zc_context_t {
            context: 0x99,
            delete_fn: Some(0x98),
        },
        callbacks(),
        |_, _| tag(&deleted),
    );
    assert_eq!(deleted.get(), 1);
    z_shm_provider_threadsafe_new(None, context(), callbacks(), |_, _| tag(&deleted));
    assert_eq!(deleted.get(), 2);
    z_ptr_in_segment_new(None, 0x1000, context(), |_| tag(&deleted));
    assert_eq!(deleted.get(), 3);
}

#[test]
fn a_chunk_keeps_what_was_written_to_it() {
    let mut segment = Segment::new(64);
    segment.place(ADDRESS);
    let a = segment.books().claim(8, 1).unwrap();
    let b = segment.books().claim(8, 1).unwrap();
    segment.write(a, &vec![1; 8]);
    segment.write(b, &vec![2; 8]);
    assert_eq!(segment.read(a, 8), vec![1; 8]);
    segment.release(b, 8);
    assert_eq!(segment.read(a, 8), vec![1; 8]);
}

#[test]
fn a_fragmented_segment_says_so() {
    let p = provider(3);
    let shared = handle(&p);
    let hold: Vec<z_owned_shm_mut_t<Shared>> = (0..3).map(|_| skew(&p)).collect();
    let mut hold = hold.into_iter();
    let (first, middle, last) = (
        hold.next().unwrap(),
        hold.next().unwrap(),
        hold.next().unwrap(),
    );
    let ask = |size: usize| {
        let mut out = empty_result();
        z_shm_provider_alloc(
            Some(&mut out),
            Some(&p),
            shared.backing.borrow_mut().as_mut(),
            size,
        );
        (out.status, out.alloc_error)
    };
    assert_eq!(
        ask(2),
        (
            ZC_BUF_LAYOUT_ALLOC_STATUS_ALLOC_ERROR,
            Z_ALLOC_ERROR_OUT_OF_MEMORY
        )
    );
    drop_buf(first);
    drop_buf(last);
    // Two bytes are free, and they are not together.
    assert_eq!(
        ask(2),
        (
            ZC_BUF_LAYOUT_ALLOC_STATUS_ALLOC_ERROR,
            Z_ALLOC_ERROR_NEED_DEFRAGMENT
        )
    );
    assert!(matches!(
        z_shm_provider_defragment(Some(&p), shared.backing.borrow().as_ref()),
        Figure::Known(1)
    ));
    assert_eq!(z_shm_provider_garbage_collect(Some(&p)), 0);
    drop_buf(middle);
    let mut out = empty_result();
    z_shm_provider_alloc(
        Some(&mut out),
        Some(&p),
        shared.backing.borrow_mut().as_mut(),
        3,
    );
    assert_eq!(out.status, ZC_BUF_LAYOUT_ALLOC_STATUS_OK);
    // An alignment that there is not is a fault of the layout.
    let mut bad = empty_result();
    z_shm_provider_alloc_aligned(
        Some(&mut bad),
        Some(&p),
        shared.backing.borrow_mut().as_mut(),
        1,
        z_alloc_alignment_t { pow: 200 },
    );
    assert_eq!(bad.status, ZC_BUF_LAYOUT_ALLOC_STATUS_LAYOUT_ERROR);
}

#[test]
fn a_buffer_becomes_a_payload_and_is_released() {
    let p = provider(16);
    let shared = handle(&p);
    let mut out = empty_result();
    z_shm_provider_alloc(
        Some(&mut out),
        Some(&p),
        shared.backing.borrow_mut().as_mut(),
        4,
    );
    if let Some(Backing::Native(segment)) = shared.backing.borrow_mut().as_mut() {
        segment.write(0, &vec![5, 6, 7, 8]);
    }
    let mut frozen = Owned::null_value();
    let mut moved = Moved { _this: out.buf };
    z_shm_from_mut(Some(&mut frozen), Some(&mut moved));
    // A clone is a copy of its own.
    let mut copy = Owned::null_value();
    let progress = z_shm_clone(
        Some(&mut copy),
        Some(&frozen),
        shared.backing.borrow_mut().as_mut(),
    );
    assert!(matches!(progress, CloneProgress::Done));
    assert!(z_internal_shm_check(Some(&copy)));
    assert_ne!(z_shm_data(Some(&copy)), z_shm_data(Some(&frozen)));

    for buffer in [frozen, copy] {
        let mut bytes = Owned::null_value();
        let mut moved = Moved { _this: buffer };
        let (code, back) = z_bytes_from_shm(
            Some(&mut bytes),
            Some(&mut moved),
            shared.backing.borrow_mut().as_mut(),
            &vec![],
        );
        assert_eq!(code, Z_OK);
        assert!(back.is_none());
        assert_eq!(bytes.state.unwrap().payload, [5, 6, 7, 8]);
        assert!(moved._this.state.is_none());
    }
    assert!(matches!(
        z_shm_provider_available(Some(&p), shared.backing.borrow().as_ref()),
        Figure::Known(16)
    ));

    // A mutable one does the same.
    let buf = skew(&p);
    let mut bytes = Owned::null_value();
    let mut moved = Moved { _this: buf };
    let (code, _) = z_bytes_from_shm_mut(
        Some(&mut bytes),
        Some(&mut moved),
        shared.backing.borrow_mut().as_mut(),
        &vec![],
    );
    assert_eq!(code, Z_OK);
    assert_eq!(bytes.state.as_ref().unwrap().payload.len(), 1);
    // A payload is never a buffer.
    let mut view: Option<&z_owned_shm_mut_t<Shared>> = None;
    assert_eq!(z_bytes_as_loaned_shm(Some(&bytes), Some(&mut view)), Z_EINVAL);
    assert_eq!(z_bytes_as_mut_loaned_shm::<Shared>(None, None), Z_ENULL);
}

#[test]
fn a_blocking_request_on_a_segment_waits_for_room_that_can_come() {
    let p = provider(8);
    let shared = handle(&p);
    let ask = |size: usize| {
        let mut out = empty_result();
        let progress = z_shm_provider_alloc_gc_defrag_blocking(
            Some(&mut out),
            Some(&p),
            shared.backing.borrow_mut().as_mut(),
            size,
        );
        (out, progress)
    };
    let (held, progress) = ask(8);
    assert!(matches!(progress, AllocProgress::Done));
    assert!(matches!(ask(1).1, AllocProgress::Wait));
    // What never fits is not waited for.
    let (out, progress) = ask(9);
    assert!(matches!(progress, AllocProgress::Done));
    assert_eq!(
        (out.status, out.alloc_error),
        (
            ZC_BUF_LAYOUT_ALLOC_STATUS_ALLOC_ERROR,
            Z_ALLOC_ERROR_OUT_OF_MEMORY
        )
    );
    drop_buf(held.buf);
    let (out, progress) = ask(1);
    assert!(matches!(progress, AllocProgress::Done));
    assert_eq!(out.status, ZC_BUF_LAYOUT_ALLOC_STATUS_OK);
}

#[test]
fn a_buffer_that_was_not_frozen_is_still_mutable() {
    let p = provider(4);
    let mut buf = skew(&p);
    assert!(z_shm_loan_mut(Some(&mut buf)).is_some());
    assert!(z_shm_try_mut(Some(&mut buf)).is_some());
    z_internal_shm_null(Some(&mut buf));
    assert!(z_shm_try_mut(Some(&mut buf)).is_none());
    z_internal_shm_mut_null(Some(&mut buf));
    let mut p = p;
    z_internal_shm_provider_null(Some(&mut p));
    assert!(!z_internal_shm_provider_check(Some(&p)));
}

#[test]
fn a_layout_is_built_by_its_provider_too() {
    let p = provider(64);
    let mut layout = Owned::null_value();
    assert_eq!(z_shm_provider_alloc_layout(Some(&mut layout), Some(&p), 8), Z_OK);
    assert_eq!(layout.state.as_ref().unwrap().alignment.pow, 0);
    assert_eq!(
        z_shm_provider_alloc_layout_aligned(
            Some(&mut layout),
            Some(&p),
            8,
            z_alloc_alignment_t { pow: 2 }
        ),
        Z_OK
    );
    assert_eq!(layout.state.as_ref().unwrap().alignment.pow, 2);
    z_internal_precomputed_layout_null(Some(&mut layout));
    z_internal_alloc_layout_null(Some(&mut layout));
    assert!(layout.state.is_none());

    let shared = handle(&p);
    let mut out = empty_result();
    z_shm_provider_alloc_gc(Some(&mut out), Some(&p), shared.backing.borrow_mut().as_mut(), 8);
    assert_eq!(out.status, ZC_BUF_LAYOUT_ALLOC_STATUS_OK);
    let mut out = empty_result();
    z_shm_provider_alloc_gc_defrag(
        Some(&mut out),
        Some(&p),
        shared.backing.borrow_mut().as_mut(),
        8,
    );
    assert_eq!(out.status, ZC_BUF_LAYOUT_ALLOC_STATUS_OK);
    // A segment that cannot be laid out is refused.
    let mut vast: z_owned_shm_provider_t<Shared> = Owned::null_value();
    assert_eq!(
        z_shm_provider_default_new(Some(&mut vast), usize::MAX, mint),
        Z_EINVAL
    );
    assert!(vast.state.is_none());
}
