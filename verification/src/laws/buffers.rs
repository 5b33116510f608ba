//! Laws of providers, buffers and caller-supplied allocators.

use std::sync::Arc;

use vstd::prelude::*;

use crate::bytes::z_loaned_bytes_t;
use crate::bytes::z_owned_bytes_t;
use crate::handle::live;
use crate::result::ZResult;
use crate::shm::books::SegmentBooks;
use crate::shm::books::aligned_up;
use crate::shm::books::is_free;
use crate::shm::books::lemma_aligned_up;
use crate::shm::buffer::CloneProgress;
use crate::shm::buffer::DataPlace;
use crate::shm::buffer::chunk_released;
use crate::shm::buffer::release_chunk;
use crate::shm::buffer::z_bytes_as_loaned_shm;
use crate::shm::buffer::z_bytes_from_shm;
use crate::shm::buffer::z_bytes_from_shm_mut;
use crate::shm::buffer::z_loaned_shm_t;
use crate::shm::buffer::z_moved_shm_t;
use crate::shm::buffer::z_owned_shm_t;
use crate::shm::buffer::z_shm_clone;
use crate::shm::buffer::z_shm_clone_reply;
use crate::shm::buffer::z_shm_data;
use crate::shm::buffer::z_shm_drop;
use crate::shm::buffer::z_shm_from_mut;
use crate::shm::buffer::z_shm_len;
use crate::shm::buffer::z_shm_mut_data;
use crate::shm::buffer::z_shm_mut_data_mut;
use crate::shm::buffer::z_shm_mut_drop;
use crate::shm::buffer::z_shm_mut_len;
use crate::shm::foreign::AsyncEnd;
use crate::shm::foreign::AsyncJob;
use crate::shm::foreign::AsyncStart;
use crate::shm::foreign::DroppableContext;
use crate::shm::foreign::z_alloc_layout_threadsafe_alloc_gc_defrag_async;
use crate::shm::foreign::z_allocated_chunk_t;
use crate::shm::foreign::z_chunk_alloc_result_new_error;
use crate::shm::foreign::z_chunk_alloc_result_new_ok;
use crate::shm::foreign::z_loaned_ptr_in_segment_t;
use crate::shm::foreign::z_owned_chunk_alloc_result_t;
use crate::shm::foreign::z_owned_ptr_in_segment_t;
use crate::shm::foreign::z_precomputed_layout_threadsafe_alloc_gc_defrag_async;
use crate::shm::foreign::z_ptr_in_segment_clone;
use crate::shm::foreign::z_ptr_in_segment_new;
use crate::shm::foreign::z_shm_provider_alloc_gc_defrag_aligned_async;
use crate::shm::foreign::z_shm_provider_alloc_gc_defrag_async;
use crate::shm::foreign::z_shm_provider_map;
use crate::shm::foreign::z_shm_provider_new;
use crate::shm::foreign::z_shm_provider_threadsafe_new;
use crate::shm::foreign::zc_context_t;
use crate::shm::foreign::zc_threadsafe_context_t;
use crate::shm::layout::alignment_bytes;
use crate::shm::layout::z_alloc_alignment_t;
use crate::shm::layout::z_loaned_memory_layout_t;
use crate::shm::precomputed::PrecomputedLayoutState;
use crate::shm::precomputed::precomputed_alloc;
use crate::shm::precomputed::precomputed_alloc_outcome;
use crate::shm::precomputed::precomputed_alloc_reply;
use crate::shm::precomputed::precomputed_new;
use crate::shm::precomputed::z_alloc_layout_alloc;
use crate::shm::precomputed::z_alloc_layout_alloc_gc;
use crate::shm::precomputed::z_alloc_layout_alloc_gc_defrag;
use crate::shm::precomputed::z_alloc_layout_alloc_gc_defrag_blocking;
use crate::shm::precomputed::z_alloc_layout_alloc_gc_defrag_dealloc;
use crate::shm::precomputed::z_alloc_layout_new;
use crate::shm::precomputed::z_alloc_layout_with_alignment_new;
use crate::shm::precomputed::z_buf_alloc_result_t;
use crate::shm::precomputed::z_loaned_precomputed_layout_t;
use crate::shm::precomputed::z_owned_precomputed_layout_t;
use crate::shm::precomputed::z_precomputed_layout_alloc;
use crate::shm::precomputed::z_precomputed_layout_alloc_gc;
use crate::shm::precomputed::z_precomputed_layout_alloc_gc_defrag;
use crate::shm::precomputed::z_precomputed_layout_alloc_gc_defrag_blocking;
use crate::shm::precomputed::z_precomputed_layout_alloc_gc_defrag_dealloc;
use crate::shm::precomputed::z_shm_provider_alloc_layout;
use crate::shm::precomputed::z_shm_provider_alloc_layout_aligned;
use crate::shm::provider::AllocProgress;
use crate::shm::provider::Backing;
use crate::shm::provider::ChunkAllocResult;
use crate::shm::provider::Figure;
use crate::shm::provider::ForeignBackend;
use crate::shm::provider::GiveBack;
use crate::shm::provider::Provider;
use crate::shm::provider::ProviderStep;
use crate::shm::provider::ShmChunk;
use crate::shm::provider::attempted;
use crate::shm::provider::minted;
use crate::shm::provider::provider_alloc;
use crate::shm::provider::provider_alloc_outcome;
use crate::shm::provider::provider_alloc_reply;
use crate::shm::provider::z_buf_layout_alloc_result_t;
use crate::shm::provider::z_loaned_shm_provider_t;
use crate::shm::provider::z_moved_shm_mut_t;
use crate::shm::provider::z_owned_shm_mut_t;
use crate::shm::provider::z_owned_shm_provider_t;
use crate::shm::provider::z_posix_shm_provider_new;
use crate::shm::provider::z_posix_shm_provider_with_layout_new;
use crate::shm::provider::z_shm_provider_alloc;
use crate::shm::provider::z_shm_provider_alloc_aligned;
use crate::shm::provider::z_shm_provider_alloc_gc;
use crate::shm::provider::z_shm_provider_alloc_gc_aligned;
use crate::shm::provider::z_shm_provider_alloc_gc_defrag;
use crate::shm::provider::z_shm_provider_alloc_gc_defrag_aligned;
use crate::shm::provider::z_shm_provider_alloc_gc_defrag_blocking;
use crate::shm::provider::z_shm_provider_alloc_gc_defrag_blocking_aligned;
use crate::shm::provider::z_shm_provider_alloc_gc_defrag_dealloc;
use crate::shm::provider::z_shm_provider_alloc_gc_defrag_dealloc_aligned;
use crate::shm::provider::z_shm_provider_available;
use crate::shm::provider::z_shm_provider_default_new;
use crate::shm::provider::z_shm_provider_defragment;
use crate::shm::provider::z_shm_provider_garbage_collect;
use crate::shm::provider::zc_shm_provider_backend_callbacks_t;
use crate::shm::segment::Segment;

verus! {

/// An attempt on a segment is served exactly where some free range has an aligned place
/// for it, with a new mutable chunk of the size that was asked for, at an aligned place
/// out of free bytes, which are then taken and no others.
pub proof fn lemma_an_attempt_on_a_segment<S>(
    provider: Provider<S>,
    backing: &mut Backing,
    size: usize,
    alignment: z_alloc_alignment_t,
    blocking: bool,
    step: ProviderStep<S>,
    align: usize,
    left: usize,
    b: int,
)
    requires
        provider is Native,
        *old(backing) is Native,
        call_ensures(
            Provider::<S>::attempt,
            (&provider, backing, size, alignment, blocking),
            step,
        ),
        call_ensures(alignment_bytes, (alignment,), align),
        call_ensures(SegmentBooks::available, (&old(backing)->Native_0.books,), left),
    ensures
        *final(backing) is Native,
        final(backing)->Native_0.store@ == old(backing)->Native_0.store@,
        final(backing)->Native_0.base == old(backing)->Native_0.base,
        final(backing)->Native_0.len == old(backing)->Native_0.len,
        !(step is Ask),
        step is Ready <==> exists|i: int, m: int|
            {
                &&& 0 <= i < old(backing)->Native_0.books.free@.len()
                &&& (#[trigger] old(backing)->Native_0.books.free@[i]).start <= m
                &&& #[trigger] (m % align as int) == 0
                &&& m + size <= old(backing)->Native_0.books.free@[i].end
            },
        step matches ProviderStep::Ready(chunk) ==> {
            let start = chunk.backing->Native_start;
            &&& chunk.len == size
            &&& chunk.mutable
            &&& chunk.backing is Native
            &&& chunk.backing->Native_segment == provider->Native_0
            &&& start as int % align as int == 0
            &&& start + size <= old(backing)->Native_0.len
            &&& start <= b < start + size ==> is_free(old(backing)->Native_0.books.free@, b)
            &&& is_free(final(backing)->Native_0.books.free@, b) <==> is_free(
                old(backing)->Native_0.books.free@,
                b,
            ) && !(start <= b < start + size)
        },
        !(step is Ready) ==> final(backing)->Native_0.books.free@
            == old(backing)->Native_0.books.free@,
        !(step is Ready) ==> (step is Wait <==> blocking && size <= old(backing)->Native_0.len),
        step matches ProviderStep::Refused(reason) ==> reason == (if size
            > old(backing)->Native_0.len || left < size || old(backing)->Native_0.len == 0 {
            1i32
        } else {
            0i32
        }),
{
    let free = old(backing)->Native_0.books.free@;
    if step is Ready {
        let i = choose|i: int|
            0 <= i < free.len() && (#[trigger] free[i]).fits(size as int, align as int);
        lemma_aligned_up(free[i].start as int, align as int);
        let m = aligned_up(free[i].start as int, align as int);
        assert(free[i].start <= m && m % align as int == 0 && m + size <= free[i].end);
    }
    if exists|i: int, m: int|
        {
            &&& 0 <= i < free.len()
            &&& (#[trigger] free[i]).start <= m
            &&& #[trigger] (m % align as int) == 0
            &&& m + size <= free[i].end
        } {
        let (i, m) = choose|i: int, m: int|
            {
                &&& 0 <= i < free.len()
                &&& (#[trigger] free[i]).start <= m
                &&& #[trigger] (m % align as int) == 0
                &&& m + size <= free[i].end
            };
        lemma_aligned_up(free[i].start as int, align as int);
        assert(free[i].fits(size as int, align as int));
    }
}

/// An attempt on a caller's allocator asks it for the size and the alignment that were
/// asked for, where it can be asked. Otherwise it waits where it may and a chunk is
/// out, and ends where not.
pub proof fn lemma_an_attempt_on_an_allocator<S>(
    provider: Provider<S>,
    backing: &mut Backing,
    size: usize,
    alignment: z_alloc_alignment_t,
    blocking: bool,
    step: ProviderStep<S>,
)
    requires
        provider is Foreign,
        *old(backing) is Foreign,
        call_ensures(
            Provider::<S>::attempt,
            (&provider, backing, size, alignment, blocking),
            step,
        ),
    ensures
        *final(backing) == *old(backing),
        ({
            let backend = old(backing)->Foreign_0;
            &&& step is Ask <==> backend.callbacks.alloc_fn is Some
            &&& step matches ProviderStep::Ask(layout) ==> layout.size == size && layout.alignment
                == alignment
            &&& backend.callbacks.alloc_fn is None ==> (step is Wait <==> blocking && backend.live
                > 0)
            &&& step matches ProviderStep::Refused(reason) ==> reason == 2
            &&& !(step is Ready)
        }),
{
}

/// A chunk that a caller's allocator reports is taken where it is long enough and has
/// an address: it is then out, and the buffer is mutable and has the size that was asked
/// for. A chunk that is not goes back. A failure is passed on with its reason, unless
/// the request may wait and a chunk is out.
pub proof fn lemma_a_report_is_taken_or_goes_back<S>(
    backend: &mut ForeignBackend,
    handle: Arc<S>,
    size: usize,
    blocking: bool,
    reply: Option<ChunkAllocResult<S>>,
    r: (ProviderStep<S>, Option<GiveBack<S>>),
)
    requires
        old(backend).live < usize::MAX,
        call_ensures(
            ForeignBackend::settle::<S>,
            (backend, &handle, size, blocking, reply),
            r,
        ),
    ensures
        final(backend).callbacks == old(backend).callbacks,
        final(backend).threadsafe == old(backend).threadsafe,
        !(r.0 is Ask),
        r.0 is Ready <==> reply is Some && reply->0 is Allocated
            && reply->0->Allocated_descriptor.len >= size && reply->0->Allocated_ptr.ptr != 0,
        r.0 matches ProviderStep::Ready(chunk) ==> {
            &&& final(backend).live == old(backend).live + 1
            &&& chunk.len == size
            &&& chunk.mutable
            &&& chunk.backing is Foreign
            &&& chunk.backing->Foreign_backend == handle
            &&& chunk.backing->Foreign_descriptor == reply->0->Allocated_descriptor
            &&& chunk.backing->Foreign_ptr == reply->0->Allocated_ptr
            &&& r.1 is None
        },
        !(r.0 is Ready) ==> final(backend).live == old(backend).live,
        !(r.0 is Ready) ==> (r.0 is Wait <==> blocking && old(backend).live > 0),
        r.1 is Some <==> reply is Some && reply->0 is Allocated && !(r.0 is Ready),
        r.1 is Some ==> r.1->0.backend == handle && r.1->0.descriptor
            == reply->0->Allocated_descriptor && r.1->0.ptr == reply->0->Allocated_ptr,
        r.0 matches ProviderStep::Refused(reason) ==> {
            &&& reply is Some && reply->0 is Failed ==> reason == reply->0->Failed_0
            &&& reply is None || reply->0 is Allocated ==> reason == 2
        },
{
}

/// A chunk that comes back is no longer out.
pub proof fn lemma_a_chunk_that_comes_back_is_counted_off(backend: &mut ForeignBackend)
    requires
        call_ensures(ForeignBackend::note_free, (backend,), ()),
    ensures
        old(backend).live > 0 ==> final(backend).live == old(backend).live - 1,
        old(backend).live == 0 ==> final(backend).live == 0,
        final(backend).callbacks == old(backend).callbacks,
        final(backend).threadsafe == old(backend).threadsafe,
{
}

/// The result of an allocation tells how its attempt ended: served with the buffer, or
/// failed with the reason and no buffer. A layout that fits no address is refused as
/// such. What has not ended has no buffer either.
pub proof fn lemma_an_allocation_tells_how_it_ended<S>(
    out: &mut z_buf_layout_alloc_result_t<S>,
    provider: Option<&z_loaned_shm_provider_t<S>>,
    backing: &mut Backing,
    size: usize,
    alignment: z_alloc_alignment_t,
    blocking: bool,
    progress: AllocProgress,
)
    requires
        call_ensures(
            provider_alloc::<S>,
            (Some(out), provider, Some(backing), size, alignment, blocking),
            progress,
        ),
    ensures
        final(out).buf.state is Some <==> final(out).status == 0,
        final(out).buf.state is Some ==> progress is Done,
        provider is None || provider->0.state is None ==> progress is Done && final(out).status == 1
            && final(out).alloc_error == 2 && *final(backing) == *old(backing),
        provider is Some && provider->0.state is Some && alignment.pow >= usize::BITS
            ==> progress is Done && final(out).status == 2 && final(out).layout_error == 0
            && *final(backing) == *old(backing),
        provider is Some && provider->0.state is Some && alignment.pow < usize::BITS ==> {
            let p = provider->0.state->0;
            &&& final(out).status == 0 || final(out).status == 1
            &&& final(out).buf.state is Some ==> attempted(
                p,
                *old(backing),
                *final(backing),
                size,
                alignment,
                blocking,
                ProviderStep::Ready(final(out).buf.state->0),
            )
            &&& final(out).buf.state is None && progress is Done ==> attempted(
                p,
                *old(backing),
                *final(backing),
                size,
                alignment,
                blocking,
                ProviderStep::<S>::Refused(final(out).alloc_error),
            )
            &&& progress is Wait ==> attempted(
                p,
                *old(backing),
                *final(backing),
                size,
                alignment,
                blocking,
                ProviderStep::<S>::Wait,
            )
            &&& progress matches AllocProgress::Ask(layout) ==> attempted(
                p,
                *old(backing),
                *final(backing),
                size,
                alignment,
                blocking,
                ProviderStep::<S>::Ask(layout),
            )
        },
{
}

/// The result of an allocation that asked a caller's allocator tells what its report
/// came to.
pub proof fn lemma_an_answered_allocation_tells_how_it_ended<S>(
    out: &mut z_buf_layout_alloc_result_t<S>,
    narrow: &mut z_buf_alloc_result_t<S>,
    handle: Arc<S>,
    backend: &mut ForeignBackend,
    other: &mut ForeignBackend,
    size: usize,
    blocking: bool,
    reply: Option<ChunkAllocResult<S>>,
    r: (AllocProgress, Option<GiveBack<S>>),
    q: (AllocProgress, Option<GiveBack<S>>),
)
    requires
        old(backend).live < usize::MAX,
        old(other).live < usize::MAX,
        call_ensures(
            provider_alloc_reply::<S>,
            (out, &handle, backend, size, blocking, reply),
            r,
        ),
        call_ensures(
            precomputed_alloc_reply::<S>,
            (narrow, &handle, other, size, blocking, reply),
            q,
        ),
    ensures
        ({
            let served = reply is Some && reply->0 is Allocated
                && reply->0->Allocated_descriptor.len >= size && reply->0->Allocated_ptr.ptr != 0;
            &&& final(out).status == (if served {
                0i32
            } else {
                1i32
            })
            &&& final(out).buf.state is Some == served
            &&& served ==> r.0 is Done && final(out).buf.state->0.len == size
                && final(out).buf.state->0.mutable && final(backend).live == old(backend).live + 1
            &&& !served ==> final(backend).live == old(backend).live
            &&& !served ==> (r.0 is Wait <==> blocking && old(backend).live > 0)
            &&& r.0 is Done && !served && reply is Some && reply->0 is Failed
                ==> final(out).alloc_error == reply->0->Failed_0
            &&& r.1 is Some <==> reply is Some && reply->0 is Allocated && !served
            &&& final(narrow).status == (if served {
                0i32
            } else {
                1i32
            })
            &&& final(narrow).buf.state is Some == served
            &&& served ==> q.0 is Done && final(narrow).buf.state->0.len == size
                && final(narrow).buf.state->0.mutable && final(other).live == old(other).live + 1
            &&& !served ==> final(other).live == old(other).live
            &&& !served ==> (q.0 is Wait <==> blocking && old(other).live > 0)
            &&& q.0 is Done && !served && reply is Some && reply->0 is Failed
                ==> final(narrow).error == reply->0->Failed_0
            &&& q.1 is Some <==> reply is Some && reply->0 is Allocated && !served
        }),
{
}

/// An allocation ends or asks at once. Without an alignment it
/// is aligned to a byte.
pub proof fn lemma_a_plain_allocation<S>(
    out: &mut z_buf_layout_alloc_result_t<S>,
    provider: Option<&z_loaned_shm_provider_t<S>>,
    backing: &mut Backing,
    size: usize,
    progress: AllocProgress,
    aligned_out: &mut z_buf_layout_alloc_result_t<S>,
    aligned_backing: &mut Backing,
    alignment: z_alloc_alignment_t,
    aligned_progress: AllocProgress,
)
    requires
        call_ensures(z_shm_provider_alloc::<S>, (Some(out), provider, Some(backing), size), progress),
        call_ensures(
            z_shm_provider_alloc_aligned::<S>,
            (Some(aligned_out), provider, Some(aligned_backing), size, alignment),
            aligned_progress,
        ),
    ensures
        provider_alloc_outcome(
            live(provider),
            *old(backing),
            *final(backing),
            size,
            (z_alloc_alignment_t { pow: 0 }),
            false,
            *final(out),
            progress,
        ),
        provider_alloc_outcome(
            live(provider),
            *old(aligned_backing),
            *final(aligned_backing),
            size,
            alignment,
            false,
            *final(aligned_out),
            aligned_progress,
        ),
        progress is Wait || aligned_progress is Wait ==> false,
{
}

/// An allocation that collects first is one like any other: nothing is left to collect. Without an alignment it
/// is aligned to a byte.
pub proof fn lemma_a_collecting_allocation<S>(
    out: &mut z_buf_layout_alloc_result_t<S>,
    provider: Option<&z_loaned_shm_provider_t<S>>,
    backing: &mut Backing,
    size: usize,
    progress: AllocProgress,
    aligned_out: &mut z_buf_layout_alloc_result_t<S>,
    aligned_backing: &mut Backing,
    alignment: z_alloc_alignment_t,
    aligned_progress: AllocProgress,
)
    requires
        call_ensures(z_shm_provider_alloc_gc::<S>, (Some(out), provider, Some(backing), size), progress),
        call_ensures(
            z_shm_provider_alloc_gc_aligned::<S>,
            (Some(aligned_out), provider, Some(aligned_backing), size, alignment),
            aligned_progress,
        ),
    ensures
        provider_alloc_outcome(
            live(provider),
            *old(backing),
            *final(backing),
            size,
            (z_alloc_alignment_t { pow: 0 }),
            false,
            *final(out),
            progress,
        ),
        provider_alloc_outcome(
            live(provider),
            *old(aligned_backing),
            *final(aligned_backing),
            size,
            alignment,
            false,
            *final(aligned_out),
            aligned_progress,
        ),
        progress is Wait || aligned_progress is Wait ==> false,
{
}

/// So is one that defragments first. Without an alignment it
/// is aligned to a byte.
pub proof fn lemma_a_defragmenting_allocation<S>(
    out: &mut z_buf_layout_alloc_result_t<S>,
    provider: Option<&z_loaned_shm_provider_t<S>>,
    backing: &mut Backing,
    size: usize,
    progress: AllocProgress,
    aligned_out: &mut z_buf_layout_alloc_result_t<S>,
    aligned_backing: &mut Backing,
    alignment: z_alloc_alignment_t,
    aligned_progress: AllocProgress,
)
    requires
        call_ensures(z_shm_provider_alloc_gc_defrag::<S>, (Some(out), provider, Some(backing), size), progress),
        call_ensures(
            z_shm_provider_alloc_gc_defrag_aligned::<S>,
            (Some(aligned_out), provider, Some(aligned_backing), size, alignment),
            aligned_progress,
        ),
    ensures
        provider_alloc_outcome(
            live(provider),
            *old(backing),
            *final(backing),
            size,
            (z_alloc_alignment_t { pow: 0 }),
            false,
            *final(out),
            progress,
        ),
        provider_alloc_outcome(
            live(provider),
            *old(aligned_backing),
            *final(aligned_backing),
            size,
            alignment,
            false,
            *final(aligned_out),
            aligned_progress,
        ),
        progress is Wait || aligned_progress is Wait ==> false,
{
}

/// So is one that may take buffers away: none is taken. Without an alignment it
/// is aligned to a byte.
pub proof fn lemma_a_dealloc_allocation<S>(
    out: &mut z_buf_layout_alloc_result_t<S>,
    provider: Option<&z_loaned_shm_provider_t<S>>,
    backing: &mut Backing,
    size: usize,
    progress: AllocProgress,
    aligned_out: &mut z_buf_layout_alloc_result_t<S>,
    aligned_backing: &mut Backing,
    alignment: z_alloc_alignment_t,
    aligned_progress: AllocProgress,
)
    requires
        call_ensures(z_shm_provider_alloc_gc_defrag_dealloc::<S>, (Some(out), provider, Some(backing), size), progress),
        call_ensures(
            z_shm_provider_alloc_gc_defrag_dealloc_aligned::<S>,
            (Some(aligned_out), provider, Some(aligned_backing), size, alignment),
            aligned_progress,
        ),
    ensures
        provider_alloc_outcome(
            live(provider),
            *old(backing),
            *final(backing),
            size,
            (z_alloc_alignment_t { pow: 0 }),
            false,
            *final(out),
            progress,
        ),
        provider_alloc_outcome(
            live(provider),
            *old(aligned_backing),
            *final(aligned_backing),
            size,
            alignment,
            false,
            *final(aligned_out),
            aligned_progress,
        ),
        progress is Wait || aligned_progress is Wait ==> false,
{
}

/// An allocation that may wait is one that waits rather than fails. Without an alignment it
/// is aligned to a byte.
pub proof fn lemma_a_blocking_allocation<S>(
    out: &mut z_buf_layout_alloc_result_t<S>,
    provider: Option<&z_loaned_shm_provider_t<S>>,
    backing: &mut Backing,
    size: usize,
    progress: AllocProgress,
    aligned_out: &mut z_buf_layout_alloc_result_t<S>,
    aligned_backing: &mut Backing,
    alignment: z_alloc_alignment_t,
    aligned_progress: AllocProgress,
)
    requires
        call_ensures(z_shm_provider_alloc_gc_defrag_blocking::<S>, (Some(out), provider, Some(backing), size), progress),
        call_ensures(
            z_shm_provider_alloc_gc_defrag_blocking_aligned::<S>,
            (Some(aligned_out), provider, Some(aligned_backing), size, alignment),
            aligned_progress,
        ),
    ensures
        provider_alloc_outcome(
            live(provider),
            *old(backing),
            *final(backing),
            size,
            (z_alloc_alignment_t { pow: 0 }),
            true,
            *final(out),
            progress,
        ),
        provider_alloc_outcome(
            live(provider),
            *old(aligned_backing),
            *final(aligned_backing),
            size,
            alignment,
            true,
            *final(aligned_out),
            aligned_progress,
        ),
        progress is Wait || aligned_progress is Wait ==> true,
{
}

/// A layout is bound to its provider with the size and the alignment it was given,
/// where it has bytes and its alignment fits an address.
pub proof fn lemma_a_bound_layout_is_as_it_was_given<S>(
    slot: &mut z_owned_precomputed_layout_t<S>,
    provider: Option<&z_loaned_shm_provider_t<S>>,
    size: usize,
    alignment: z_alloc_alignment_t,
    code: ZResult,
    aligned: &mut z_owned_precomputed_layout_t<S>,
    aligned_code: ZResult,
    newer: &mut z_owned_precomputed_layout_t<S>,
    newer_code: ZResult,
)
    requires
        call_ensures(precomputed_new::<S>, (Some(slot), provider, size, alignment), code),
        call_ensures(
            z_alloc_layout_with_alignment_new::<S>,
            (Some(aligned), provider, size, alignment),
            aligned_code,
        ),
        call_ensures(
            z_shm_provider_alloc_layout_aligned::<S>,
            (Some(newer), provider, size, alignment),
            newer_code,
        ),
    ensures
        provider is None || provider->0.state is None ==> code == -5,
        provider is Some && provider->0.state is Some ==> code == (if size > 0 && alignment.pow
            < usize::BITS {
            0i8
        } else {
            -1i8
        }),
        final(slot).state is Some == (code == 0),
        code == 0 ==> final(slot).state->0.provider == provider->0.state->0
            && final(slot).state->0.size == size && final(slot).state->0.alignment == alignment,
        aligned_code == code && *final(aligned) == *final(slot),
        newer_code == code && *final(newer) == *final(slot),
{
}

/// A layout that is bound without an alignment is aligned to a byte.
pub proof fn lemma_a_plain_bound_layout_is_aligned_to_a_byte<S>(
    slot: &mut z_owned_precomputed_layout_t<S>,
    provider: Option<&z_loaned_shm_provider_t<S>>,
    size: usize,
    code: ZResult,
    newer: &mut z_owned_precomputed_layout_t<S>,
    newer_code: ZResult,
)
    requires
        call_ensures(z_alloc_layout_new::<S>, (Some(slot), provider, size), code),
        call_ensures(z_shm_provider_alloc_layout::<S>, (Some(newer), provider, size), newer_code),
    ensures
        provider is None || provider->0.state is None ==> code == -5,
        provider is Some && provider->0.state is Some ==> code == (if size > 0 {
            0i8
        } else {
            -1i8
        }),
        final(slot).state is Some == (code == 0),
        code == 0 ==> final(slot).state->0.provider == provider->0.state->0
            && final(slot).state->0.size == size && final(slot).state->0.alignment.pow == 0,
        newer_code == code && *final(newer) == *final(slot),
{
}

/// An allocation through a bound layout asks for the layout's size and alignment of the
/// layout's provider, and tells how that ended.
pub proof fn lemma_a_bound_allocation_asks_for_its_layout<S>(
    out: &mut z_buf_alloc_result_t<S>,
    layout: Option<&z_loaned_precomputed_layout_t<S>>,
    backing: &mut Backing,
    blocking: bool,
    progress: AllocProgress,
)
    requires
        call_ensures(
            precomputed_alloc::<S>,
            (Some(out), layout, Some(backing), blocking),
            progress,
        ),
    ensures
        final(out).status == 0 || final(out).status == 1,
        final(out).buf.state is Some <==> final(out).status == 0,
        final(out).buf.state is Some ==> progress is Done,
        layout is None || layout->0.state is None ==> progress is Done && final(out).status == 1
            && final(out).error == 2 && *final(backing) == *old(backing),
        layout is Some && layout->0.state is Some && layout->0.state->0.alignment.pow < usize::BITS
            ==> {
            let l = layout->0.state->0;
            &&& final(out).buf.state is Some ==> attempted(
                l.provider,
                *old(backing),
                *final(backing),
                l.size,
                l.alignment,
                blocking,
                ProviderStep::Ready(final(out).buf.state->0),
            )
            &&& final(out).buf.state is None && progress is Done ==> attempted(
                l.provider,
                *old(backing),
                *final(backing),
                l.size,
                l.alignment,
                blocking,
                ProviderStep::<S>::Refused(final(out).error),
            )
            &&& progress is Wait ==> attempted(
                l.provider,
                *old(backing),
                *final(backing),
                l.size,
                l.alignment,
                blocking,
                ProviderStep::<S>::Wait,
            )
            &&& progress matches AllocProgress::Ask(asked) ==> attempted(
                l.provider,
                *old(backing),
                *final(backing),
                l.size,
                l.alignment,
                blocking,
                ProviderStep::<S>::Ask(asked),
            )
        },
{
}

/// The plain spellings of an allocation through a bound layout are one.
pub proof fn lemma_a_plain_bound_allocation<S>(
    out: &mut z_buf_alloc_result_t<S>,
    layout: Option<&z_loaned_precomputed_layout_t<S>>,
    backing: &mut Backing,
    progress: AllocProgress,
    older_out: &mut z_buf_alloc_result_t<S>,
    older_backing: &mut Backing,
    older_progress: AllocProgress,
)
    requires
        call_ensures(z_precomputed_layout_alloc::<S>, (Some(out), layout, Some(backing)), progress),
        call_ensures(
            z_alloc_layout_alloc::<S>,
            (Some(older_out), layout, Some(older_backing)),
            older_progress,
        ),
    ensures
        precomputed_alloc_outcome(
            live(layout),
            *old(backing),
            *final(backing),
            false,
            *final(out),
            progress,
        ),
        precomputed_alloc_outcome(
            live(layout),
            *old(older_backing),
            *final(older_backing),
            false,
            *final(older_out),
            older_progress,
        ),
        progress is Wait || older_progress is Wait ==> false,
{
}

/// The collecting spellings of an allocation through a bound layout are one.
pub proof fn lemma_a_collecting_bound_allocation<S>(
    out: &mut z_buf_alloc_result_t<S>,
    layout: Option<&z_loaned_precomputed_layout_t<S>>,
    backing: &mut Backing,
    progress: AllocProgress,
    older_out: &mut z_buf_alloc_result_t<S>,
    older_backing: &mut Backing,
    older_progress: AllocProgress,
)
    requires
        call_ensures(z_precomputed_layout_alloc_gc::<S>, (Some(out), layout, Some(backing)), progress),
        call_ensures(
            z_alloc_layout_alloc_gc::<S>,
            (Some(older_out), layout, Some(older_backing)),
            older_progress,
        ),
    ensures
        precomputed_alloc_outcome(
            live(layout),
            *old(backing),
            *final(backing),
            false,
            *final(out),
            progress,
        ),
        precomputed_alloc_outcome(
            live(layout),
            *old(older_backing),
            *final(older_backing),
            false,
            *final(older_out),
            older_progress,
        ),
        progress is Wait || older_progress is Wait ==> false,
{
}

/// The defragmenting spellings of an allocation through a bound layout are one.
pub proof fn lemma_a_defragmenting_bound_allocation<S>(
    out: &mut z_buf_alloc_result_t<S>,
    layout: Option<&z_loaned_precomputed_layout_t<S>>,
    backing: &mut Backing,
    progress: AllocProgress,
    older_out: &mut z_buf_alloc_result_t<S>,
    older_backing: &mut Backing,
    older_progress: AllocProgress,
)
    requires
        call_ensures(z_precomputed_layout_alloc_gc_defrag::<S>, (Some(out), layout, Some(backing)), progress),
        call_ensures(
            z_alloc_layout_alloc_gc_defrag::<S>,
            (Some(older_out), layout, Some(older_backing)),
            older_progress,
        ),
    ensures
        precomputed_alloc_outcome(
            live(layout),
            *old(backing),
            *final(backing),
            false,
            *final(out),
            progress,
        ),
        precomputed_alloc_outcome(
            live(layout),
            *old(older_backing),
            *final(older_backing),
            false,
            *final(older_out),
            older_progress,
        ),
        progress is Wait || older_progress is Wait ==> false,
{
}

/// The dealloc spellings of an allocation through a bound layout are one.
pub proof fn lemma_a_dealloc_bound_allocation<S>(
    out: &mut z_buf_alloc_result_t<S>,
    layout: Option<&z_loaned_precomputed_layout_t<S>>,
    backing: &mut Backing,
    progress: AllocProgress,
    older_out: &mut z_buf_alloc_result_t<S>,
    older_backing: &mut Backing,
    older_progress: AllocProgress,
)
    requires
        call_ensures(z_precomputed_layout_alloc_gc_defrag_dealloc::<S>, (Some(out), layout, Some(backing)), progress),
        call_ensures(
            z_alloc_layout_alloc_gc_defrag_dealloc::<S>,
            (Some(older_out), layout, Some(older_backing)),
            older_progress,
        ),
    ensures
        precomputed_alloc_outcome(
            live(layout),
            *old(backing),
            *final(backing),
            false,
            *final(out),
            progress,
        ),
        precomputed_alloc_outcome(
            live(layout),
            *old(older_backing),
            *final(older_backing),
            false,
            *final(older_out),
            older_progress,
        ),
        progress is Wait || older_progress is Wait ==> false,
{
}

/// The blocking spellings of an allocation through a bound layout are one.
pub proof fn lemma_a_blocking_bound_allocation<S>(
    out: &mut z_buf_alloc_result_t<S>,
    layout: Option<&z_loaned_precomputed_layout_t<S>>,
    backing: &mut Backing,
    progress: AllocProgress,
    older_out: &mut z_buf_alloc_result_t<S>,
    older_backing: &mut Backing,
    older_progress: AllocProgress,
)
    requires
        call_ensures(z_precomputed_layout_alloc_gc_defrag_blocking::<S>, (Some(out), layout, Some(backing)), progress),
        call_ensures(
            z_alloc_layout_alloc_gc_defrag_blocking::<S>,
            (Some(older_out), layout, Some(older_backing)),
            older_progress,
        ),
    ensures
        precomputed_alloc_outcome(
            live(layout),
            *old(backing),
            *final(backing),
            true,
            *final(out),
            progress,
        ),
        precomputed_alloc_outcome(
            live(layout),
            *old(older_backing),
            *final(older_backing),
            true,
            *final(older_out),
            older_progress,
        ),
        progress is Wait || older_progress is Wait ==> true,
{
}

/// A provider has its free bytes available and its longest range in one piece; a
/// caller's allocator is asked, where it can be. Nothing is left to collect.
pub proof fn lemma_a_provider_tells_what_is_free<S>(
    provider: z_loaned_shm_provider_t<S>,
    backing: Backing,
    available: Figure,
    largest: Figure,
    collected: usize,
    left: usize,
    size: usize,
)
    requires
        provider.state is Some,
        call_ensures(z_shm_provider_available::<S>, (Some(&provider), Some(&backing)), available),
        call_ensures(z_shm_provider_defragment::<S>, (Some(&provider), Some(&backing)), largest),
        call_ensures(z_shm_provider_garbage_collect::<S>, (Some(&provider),), collected),
        backing is Native ==> call_ensures(
            SegmentBooks::available,
            (&backing->Native_0.books,),
            left,
        ),
        backing is Native ==> call_ensures(
            SegmentBooks::largest,
            (&backing->Native_0.books,),
            size,
        ),
    ensures
        collected == 0,
        backing is Native ==> available == Figure::Known(left) && largest == Figure::Known(size),
        backing is Foreign ==> {
            let callbacks = backing->Foreign_0.callbacks;
            &&& callbacks.available_fn is Some ==> available == Figure::AskBackend
            &&& callbacks.available_fn is None ==> available == Figure::Known(0)
            &&& callbacks.defragment_fn is Some ==> largest == Figure::AskBackend
            &&& callbacks.defragment_fn is None ==> largest == Figure::Known(0)
        },
{
    if backing is Native {
        let free = backing->Native_0.books.free@;
        if free.len() > 0 {
            let i = choose|i: int| 0 <= i < free.len() && (#[trigger] free[i]).size() == size;
            let j = choose|j: int|
                0 <= j < free.len() && (#[trigger] free[j]).size() == largest->Known_0;
            assert(free[i].size() <= largest->Known_0);
            assert(free[j].size() <= size);
        }
    }
}

/// A provider of its own memory has a new segment of the size that was asked for, all of
/// it free, on a page; a size that no memory can be laid out for is refused.
pub proof fn lemma_a_new_provider_has_what_was_asked_for<S, M: FnOnce(Backing) -> S>(
    slot: &mut z_owned_shm_provider_t<S>,
    size: usize,
    mint: M,
    code: ZResult,
    posix: &mut z_owned_shm_provider_t<S>,
    posix_code: ZResult,
)
    requires
        call_ensures(z_shm_provider_default_new::<S, M>, (Some(slot), size, mint), code),
        call_ensures(z_posix_shm_provider_new::<S, M>, (Some(posix), size, mint), posix_code),
    ensures
        code == (if size == 0 || size + 4095 <= isize::MAX {
            0i8
        } else {
            -1i8
        }),
        posix_code == code,
        final(slot).state is Some == (code == 0),
        final(posix).state is Some == (code == 0),
        code == 0 ==> final(slot).state->0 is Native && exists|segment: Segment|
            {
                &&& #[trigger] call_ensures(
                    mint,
                    (Backing::Native(segment),),
                    *final(slot).state->0->Native_0,
                )
                &&& segment.len == size
                &&& segment.align == 4096
                &&& size == 0 ==> segment.books.free@.len() == 0
                &&& size > 0 ==> segment.books.free@.len() == 1 && segment.books.free@[0].start == 0
                    && segment.books.free@[0].end == size
            },
        code == 0 ==> final(posix).state->0 is Native && exists|segment: Segment|
            {
                &&& #[trigger] call_ensures(
                    mint,
                    (Backing::Native(segment),),
                    *final(posix).state->0->Native_0,
                )
                &&& segment.len == size
                &&& segment.align == 4096
            },
{
    if code == 0 {
        let segment = choose|segment: Segment|
            segment.wf() && segment.is_fresh(size, 4096) && #[trigger] minted(
                mint,
                segment,
                *final(slot).state->0->Native_0,
            );
        assert(call_ensures(
            mint,
            (Backing::Native(segment),),
            *final(slot).state->0->Native_0,
        ));
        let other = choose|segment: Segment|
            segment.wf() && segment.is_fresh(size, 4096) && #[trigger] minted(
                mint,
                segment,
                *final(posix).state->0->Native_0,
            );
        assert(call_ensures(mint, (Backing::Native(other),), *final(posix).state->0->Native_0));
    }
}

/// A provider that is sized by a layout has a segment of the layout's size, aligned as
/// the layout says and to a page at least.
pub proof fn lemma_a_provider_is_sized_by_its_layout<S, M: FnOnce(Backing) -> S>(
    slot: &mut z_owned_shm_provider_t<S>,
    layout: Option<&z_loaned_memory_layout_t>,
    mint: M,
    code: ZResult,
    align: usize,
)
    requires
        call_ensures(
            z_posix_shm_provider_with_layout_new::<S, M>,
            (Some(slot), layout, mint),
            code,
        ),
        layout is Some && layout->0.state is Some ==> call_ensures(
            alignment_bytes,
            (layout->0.state->0.alignment,),
            align,
        ),
    ensures
        layout is None || layout->0.state is None ==> code == -5,
        final(slot).state is Some == (code == 0),
        layout is Some && layout->0.state is Some && layout->0.state->0.alignment.pow
            >= usize::BITS ==> code == -1,
        code == 0 ==> final(slot).state->0 is Native && exists|segment: Segment|
            {
                &&& #[trigger] call_ensures(
                    mint,
                    (Backing::Native(segment),),
                    *final(slot).state->0->Native_0,
                )
                &&& segment.len == layout->0.state->0.size
                &&& align <= 4096 ==> segment.align == 4096
                &&& align > 4096 ==> segment.align == align
            },
{
    if code == 0 {
        let wide = crate::shm::segment::widened(align);
        let segment = choose|segment: Segment|
            segment.wf() && segment.is_fresh(layout->0.state->0.size, wide) && #[trigger] minted(
                mint,
                segment,
                *final(slot).state->0->Native_0,
            );
        assert(call_ensures(
            mint,
            (Backing::Native(segment),),
            *final(slot).state->0->Native_0,
        ));
    }
}

/// A provider on a caller's allocator has its callbacks and its context, no chunk out,
/// and the promise that its constructor makes.
pub proof fn lemma_an_allocator_is_installed_as_given<
    S,
    M: FnOnce(Backing, DroppableContext) -> S,
>(
    slot: &mut z_owned_shm_provider_t<S>,
    context: zc_context_t,
    callbacks: zc_shm_provider_backend_callbacks_t,
    mint: M,
    safe: &mut z_owned_shm_provider_t<S>,
    safe_context: zc_threadsafe_context_t,
)
    requires
        call_ensures(z_shm_provider_new::<S, M>, (Some(slot), context, callbacks, mint), ()),
        call_ensures(
            z_shm_provider_threadsafe_new::<S, M>,
            (Some(safe), safe_context, callbacks, mint),
            (),
        ),
    ensures
        final(slot).state is Some,
        final(slot).state->0 is Foreign,
        call_ensures(
            mint,
            (
                Backing::Foreign(ForeignBackend { callbacks, threadsafe: false, live: 0 }),
                DroppableContext { ptr: context.context, delete_fn: context.delete_fn },
            ),
            *final(slot).state->0->Foreign_0,
        ),
        final(safe).state is Some,
        final(safe).state->0 is Foreign,
        call_ensures(
            mint,
            (
                Backing::Foreign(ForeignBackend { callbacks, threadsafe: true, live: 0 }),
                DroppableContext { ptr: safe_context.context.ptr, delete_fn: safe_context.delete_fn },
            ),
            *final(safe).state->0->Foreign_0,
        ),
{
}

/// A buffer's place and its length are those of its chunk. A dead buffer has neither.
pub proof fn lemma_a_buffer_is_read_as_it_is<S>(
    this_: Option<&z_loaned_shm_t<S>>,
    place: Option<DataPlace>,
    len: usize,
    mut_place: Option<DataPlace>,
    write_place: Option<DataPlace>,
    mut_len: usize,
)
    requires
        call_ensures(z_shm_data::<S>, (this_,), place),
        call_ensures(z_shm_len::<S>, (this_,), len),
        call_ensures(z_shm_mut_data::<S>, (this_,), mut_place),
        call_ensures(z_shm_mut_data_mut::<S>, (this_,), write_place),
        call_ensures(z_shm_mut_len::<S>, (this_,), mut_len),
    ensures
        mut_place == place && write_place == place && mut_len == len,
        place is Some == (this_ is Some && this_->0.state is Some),
        place is None ==> len == 0,
        place is Some ==> {
            let chunk = this_->0.state->0;
            &&& len == chunk.len
            &&& chunk.backing is Native ==> place->0 == DataPlace::InSegment(
                chunk.backing->Native_start,
            )
            &&& chunk.backing is Foreign ==> place->0 == DataPlace::At(
                chunk.backing->Foreign_ptr.ptr,
            )
        },
{
}

/// Freezing a buffer keeps its chunk and its length and ends its mutable access; the
/// mutable buffer is gone.
pub proof fn lemma_a_frozen_buffer_keeps_its_place<S>(
    slot: &mut z_owned_shm_t<S>,
    moved: &mut z_moved_shm_mut_t<S>,
)
    requires
        call_ensures(z_shm_from_mut::<S>, (Some(slot), Some(moved)), ()),
    ensures
        final(moved)._this.state is None,
        final(slot).state is Some == old(moved)._this.state is Some,
        final(slot).state is Some ==> {
            &&& final(slot).state->0.backing == old(moved)._this.state->0.backing
            &&& final(slot).state->0.len == old(moved)._this.state->0.len
            &&& !final(slot).state->0.mutable
        },
{
}

/// A chunk that is released goes back where it came from: its bytes are free again in
/// its segment, or it is handed back to its allocator with its own descriptor and
/// pointer and is no longer out.
pub proof fn lemma_a_chunk_goes_back_where_it_came_from<S>(
    chunk: ShmChunk<S>,
    backing: &mut Backing,
    give_back: Option<GiveBack<S>>,
    b: int,
)
    requires
        chunk.held_by(old(backing)),
        call_ensures(release_chunk::<S>, (chunk, backing), give_back),
    ensures
        give_back is Some == chunk.backing is Foreign,
        chunk.backing is Native ==> {
            let start = chunk.backing->Native_start;
            &&& *final(backing) is Native
            &&& is_free(final(backing)->Native_0.books.free@, b) <==> is_free(
                old(backing)->Native_0.books.free@,
                b,
            ) || start <= b < start + chunk.len
            &&& final(backing)->Native_0.store@ == old(backing)->Native_0.store@
        },
        chunk.backing is Foreign ==> {
            &&& *final(backing) is Foreign
            &&& give_back->0.backend == chunk.backing->Foreign_backend
            &&& give_back->0.descriptor == chunk.backing->Foreign_descriptor
            &&& give_back->0.ptr == chunk.backing->Foreign_ptr
            &&& old(backing)->Foreign_0.live > 0 ==> final(backing)->Foreign_0.live
                == old(backing)->Foreign_0.live - 1
            &&& old(backing)->Foreign_0.live == 0 ==> final(backing)->Foreign_0.live == 0
        },
{
}

/// Dropping a buffer releases its chunk, once: what is left behind has none.
pub proof fn lemma_a_dropped_buffer_releases_its_chunk<S>(
    moved: &mut z_moved_shm_t<S>,
    backing: &mut Backing,
    give_back: Option<GiveBack<S>>,
    mutable: &mut z_moved_shm_mut_t<S>,
    other: &mut Backing,
    other_back: Option<GiveBack<S>>,
    b: int,
)
    requires
        call_ensures(z_shm_drop::<S>, (Some(moved), Some(backing)), give_back),
        call_ensures(z_shm_mut_drop::<S>, (Some(mutable), Some(other)), other_back),
    ensures
        final(moved)._this.state is None,
        old(moved)._this.state is None ==> *final(backing) == *old(backing) && give_back is None,
        old(moved)._this.state is Some ==> chunk_released(
            old(moved)._this.state->0,
            *old(backing),
            *final(backing),
            give_back,
        ),
        old(moved)._this.state is Some && old(moved)._this.state->0.backing is Native
            && *old(backing) is Native && *final(backing) is Native ==> {
            let chunk = old(moved)._this.state->0;
            let start = chunk.backing->Native_start;
            is_free(final(backing)->Native_0.books.free@, b) <==> is_free(
                old(backing)->Native_0.books.free@,
                b,
            ) || start <= b < start + chunk.len
        },
        final(mutable)._this.state is None,
        old(mutable)._this.state is None ==> *final(other) == *old(other) && other_back is None,
        old(mutable)._this.state is Some ==> chunk_released(
            old(mutable)._this.state->0,
            *old(other),
            *final(other),
            other_back,
        ),
{
}

/// A copy of a buffer in a segment is a chunk of its own with the same bytes, which
/// changes no other byte and takes only free ones; it is not mutable. A copy of a chunk
/// of a caller's allocator asks for one as long.
pub proof fn lemma_a_copied_buffer_has_the_same_bytes<S>(
    out: &mut z_owned_shm_t<S>,
    source: z_loaned_shm_t<S>,
    backing: &mut Backing,
    progress: CloneProgress,
    i: int,
)
    requires
        source.state is Some,
        source.state->0.held_by(old(backing)),
        call_ensures(z_shm_clone::<S>, (Some(out), Some(&source), Some(backing)), progress),
    ensures
        source.state->0.backing is Foreign ==> {
            let backend = old(backing)->Foreign_0;
            &&& final(out).state is None
            &&& *final(backing) == *old(backing)
            &&& progress is Ask == backend.callbacks.alloc_fn is Some
            &&& progress is Ask ==> progress->Ask_0.size == source.state->0.len
                && progress->Ask_0.alignment.pow == 0
        },
        source.state->0.backing is Native ==> progress is Done,
        source.state->0.backing is Native ==> (final(out).state is Some <==> exists|k: int|
            0 <= k < old(backing)->Native_0.books.free@.len() && (
            #[trigger] old(backing)->Native_0.books.free@[k]).start + source.state->0.len
                <= old(backing)->Native_0.books.free@[k].end),
        source.state->0.backing is Native && final(out).state is None ==> {
            &&& *final(backing) is Native
            &&& final(backing)->Native_0.store@ == old(backing)->Native_0.store@
            &&& final(backing)->Native_0.base == old(backing)->Native_0.base
            &&& final(backing)->Native_0.len == old(backing)->Native_0.len
            &&& final(backing)->Native_0.books.free@ == old(backing)->Native_0.books.free@
        },
        source.state->0.backing is Native && final(out).state is Some ==> {
            &&& *final(backing) is Native
            &&& final(backing)->Native_0.base == old(backing)->Native_0.base
            &&& final(backing)->Native_0.len == old(backing)->Native_0.len
            &&& final(backing)->Native_0.align == old(backing)->Native_0.align
        },
        source.state->0.backing is Native && final(out).state is Some ==> {
            let was = old(backing)->Native_0;
            let is = final(backing)->Native_0;
            let from = source.state->0.backing->Native_start;
            let copy = final(out).state->0;
            let to = copy.backing->Native_start;
            &&& copy.backing is Native
            &&& copy.backing->Native_segment == source.state->0.backing->Native_segment
            &&& copy.len == source.state->0.len
            &&& !copy.mutable
            &&& 0 <= i < copy.len ==> is.store@[is.base + to + i] == was.store@[was.base + from
                + i]
            &&& 0 <= i < was.store@.len() && (i < was.base + to || i >= was.base + to + copy.len)
                ==> is.store@[i] == was.store@[i]
            &&& to <= i < to + copy.len ==> is_free(was.books.free@, i)
            &&& is_free(is.books.free@, i) <==> is_free(was.books.free@, i) && !(to <= i < to
                + copy.len)
        },
{
    if source.state->0.backing is Native {
        let free = old(backing)->Native_0.books.free@;
        let len = source.state->0.len as int;
        assert forall|k: int| 0 <= k < free.len() implies ((#[trigger] free[k]).fits(len, 1)
            <==> free[k].start + len <= free[k].end) by {
            assert(free[k].start as int % 1 == 0);
        }
        if final(out).state is Some {
            let k = choose|k: int| 0 <= k < free.len() && (#[trigger] free[k]).fits(len, 1);
            assert(free[k].start + len <= free[k].end);
        }
        if exists|k: int|
            0 <= k < free.len() && (#[trigger] free[k]).start + len <= free[k].end {
            let k = choose|k: int|
                0 <= k < free.len() && (#[trigger] free[k]).start + len <= free[k].end;
            assert(free[k].fits(len, 1));
        }
    }
    if source.state->0.backing is Native && final(out).state is Some {
        let was = old(backing)->Native_0;
        let is = final(backing)->Native_0;
        let from = source.state->0.backing->Native_start as int;
        let copy = final(out).state->0;
        let to = copy.backing->Native_start as int;
        if 0 <= i < copy.len {
            assert(is.content(to, copy.len as int)[i] == was.content(from, copy.len as int)[i]);
        }
    }
}

/// A copy that asked a caller's allocator is live where the chunk is long enough and has
/// an address, with the length of the source and not mutable. Any other chunk goes back.
pub proof fn lemma_an_answered_copy_is_as_long_as_its_source<S>(
    out: &mut z_owned_shm_t<S>,
    handle: Arc<S>,
    backend: &mut ForeignBackend,
    len: usize,
    reply: Option<ChunkAllocResult<S>>,
    give_back: Option<GiveBack<S>>,
)
    requires
        old(backend).live < usize::MAX,
        call_ensures(z_shm_clone_reply::<S>, (out, &handle, backend, len, reply), give_back),
    ensures
        final(out).state is Some <==> reply is Some && reply->0 is Allocated
            && reply->0->Allocated_descriptor.len >= len && reply->0->Allocated_ptr.ptr != 0,
        final(out).state matches Some(copy) ==> {
            &&& copy.len == len
            &&& !copy.mutable
            &&& copy.backing is Foreign
            &&& copy.backing->Foreign_backend == handle
            &&& copy.backing->Foreign_descriptor == reply->0->Allocated_descriptor
            &&& copy.backing->Foreign_ptr == reply->0->Allocated_ptr
            &&& final(backend).live == old(backend).live + 1
        },
        final(out).state is None ==> final(backend).live == old(backend).live,
        give_back is Some <==> reply is Some && reply->0 is Allocated && final(out).state is None,
        give_back is Some ==> give_back->0.backend == handle && give_back->0.descriptor
            == reply->0->Allocated_descriptor,
{
}

/// A payload that is made of a buffer has the buffer's bytes, and the buffer's chunk goes
/// back.
pub proof fn lemma_a_payload_has_the_bytes_of_its_buffer<S>(
    slot: &mut z_owned_bytes_t,
    moved: &mut z_moved_shm_t<S>,
    backing: &mut Backing,
    found: Vec<u8>,
    r: (ZResult, Option<GiveBack<S>>),
    mut_slot: &mut z_owned_bytes_t,
    mut_moved: &mut z_moved_shm_mut_t<S>,
    mut_backing: &mut Backing,
    mut_r: (ZResult, Option<GiveBack<S>>),
    i: int,
)
    requires
        call_ensures(z_bytes_from_shm::<S>, (Some(slot), Some(moved), Some(backing), &found), r),
        call_ensures(
            z_bytes_from_shm_mut::<S>,
            (Some(mut_slot), Some(mut_moved), Some(mut_backing), &found),
            mut_r,
        ),
        old(moved)._this.state is Some ==> old(moved)._this.state->0.held_by(old(backing)),
        old(mut_moved)._this.state is Some ==> old(mut_moved)._this.state->0.held_by(
            old(mut_backing),
        ),
    ensures
        final(moved)._this.state is None,
        r.0 == (if old(moved)._this.state is Some {
            0i8
        } else {
            -5i8
        }),
        final(slot).state is Some == (r.0 == 0),
        r.0 != 0 ==> *final(backing) == *old(backing) && r.1 is None,
        old(moved)._this.state matches Some(chunk) ==> {
            let payload = final(slot).state->0.payload@;
            &&& chunk_released(chunk, *old(backing), *final(backing), r.1)
            &&& chunk.backing is Foreign ==> payload == found@
            &&& chunk.backing is Native ==> payload.len() == chunk.len
            &&& chunk.backing is Native && 0 <= i < chunk.len ==> payload[i]
                == old(backing)->Native_0.store@[old(backing)->Native_0.base
                + chunk.backing->Native_start + i]
        },
        final(mut_moved)._this.state is None,
        mut_r.0 == (if old(mut_moved)._this.state is Some {
            0i8
        } else {
            -5i8
        }),
        old(mut_moved)._this.state matches Some(chunk) ==> {
            let payload = final(mut_slot).state->0.payload@;
            &&& final(mut_slot).state is Some
            &&& chunk_released(chunk, *old(mut_backing), *final(mut_backing), mut_r.1)
            &&& chunk.backing is Foreign ==> payload == found@
            &&& chunk.backing is Native ==> payload.len() == chunk.len
        },
{
}

/// A pointer into a caller's segment has the address it was given and keeps the context
/// it was given; its copy is the same pointer.
pub proof fn lemma_a_pointer_keeps_its_context<S, M: FnOnce(DroppableContext) -> S>(
    slot: &mut z_owned_ptr_in_segment_t<S>,
    ptr: usize,
    segment: zc_threadsafe_context_t,
    mint: M,
    copy: &mut z_owned_ptr_in_segment_t<S>,
    this_: Option<&z_loaned_ptr_in_segment_t<S>>,
)
    requires
        call_ensures(z_ptr_in_segment_new::<S, M>, (Some(slot), ptr, segment, mint), ()),
        call_ensures(z_ptr_in_segment_clone::<S>, (Some(copy), this_), ()),
    ensures
        final(slot).state is Some,
        final(slot).state->0.ptr == ptr,
        call_ensures(
            mint,
            (DroppableContext { ptr: segment.context.ptr, delete_fn: segment.delete_fn },),
            *final(slot).state->0._segment,
        ),
        final(copy).state is Some == (this_ is Some && this_->0.state is Some),
        final(copy).state is Some ==> final(copy).state->0.ptr == this_->0.state->0.ptr
            && final(copy).state->0._segment == this_->0.state->0._segment,
{
}

/// A report of a chunk has the descriptor and the pointer that it was given, and a
/// report of a failure its reason. A chunk without a pointer cannot be reported.
pub proof fn lemma_a_report_says_what_it_was_given<S>(
    slot: &mut z_owned_chunk_alloc_result_t<S>,
    allocated: z_allocated_chunk_t<S>,
    code: ZResult,
    failed: &mut z_owned_chunk_alloc_result_t<S>,
    reason: i32,
)
    requires
        call_ensures(z_chunk_alloc_result_new_ok::<S>, (Some(slot), allocated), code),
        call_ensures(z_chunk_alloc_result_new_error::<S>, (Some(failed), reason), ()),
    ensures
        code == (if allocated.ptr is Some && allocated.ptr->0._this.state is Some {
            0i8
        } else {
            -1i8
        }),
        final(slot).state is Some == (code == 0),
        code == 0 ==> final(slot).state->0 is Allocated
            && final(slot).state->0->Allocated_descriptor == allocated.descriptpr
            && final(slot).state->0->Allocated_ptr == allocated.ptr->0._this.state->0,
        allocated.ptr matches Some(moved) ==> final(moved)._this.state is None,
        final(failed).state is Some && final(failed).state->0 is Failed
            && final(failed).state->0->Failed_0 == reason,
{
}

/// A chunk of a provider's own allocator is adopted as a mutable buffer of the length
/// that was asked for, where it has a pointer with an address and is long enough, and is
/// then out. Any other is refused and nothing changes.
pub proof fn lemma_a_mapped_chunk_is_out<S>(
    slot: &mut z_owned_shm_mut_t<S>,
    provider: Option<&z_loaned_shm_provider_t<S>>,
    backing: &mut Backing,
    allocated: z_allocated_chunk_t<S>,
    len: usize,
    code: ZResult,
)
    requires
        call_ensures(
            z_shm_provider_map::<S>,
            (Some(slot), provider, Some(backing), allocated, len),
            code,
        ),
        provider is Some && provider->0.state is Some ==> (provider->0.state->0 is Native
            <==> *old(backing) is Native),
        *old(backing) is Foreign ==> old(backing)->Foreign_0.live < usize::MAX,
    ensures
        allocated.ptr matches Some(moved) ==> final(moved)._this.state is None,
        code == 0 || code == -1,
        code == 0 <==> {
            &&& allocated.ptr is Some && allocated.ptr->0._this.state is Some
            &&& provider is Some && provider->0.state is Some && provider->0.state->0 is Foreign
            &&& allocated.ptr->0._this.state->0.ptr != 0
            &&& len <= allocated.descriptpr.len
        },
        final(slot).state is Some == (code == 0),
        code == 0 ==> {
            let chunk = final(slot).state->0;
            &&& chunk.len == len
            &&& chunk.mutable
            &&& chunk.backing is Foreign
            &&& chunk.backing->Foreign_backend == provider->0.state->0->Foreign_0
            &&& chunk.backing->Foreign_descriptor == allocated.descriptpr
            &&& chunk.backing->Foreign_ptr == allocated.ptr->0._this.state->0
            &&& final(backing)->Foreign_0.live == old(backing)->Foreign_0.live + 1
        },
        code != 0 ==> *final(backing) == *old(backing),
{
}

/// An allocation on another thread is taken on where a result, a callback and a provider
/// are there and the provider may run anywhere. The job has the provider, the size, the
/// alignment, the context and the callback that were given. Where it is not taken on the
/// context's deletion is due.
pub proof fn lemma_a_job_is_what_was_asked_for<S>(
    out: Option<&z_buf_layout_alloc_result_t<S>>,
    provider: z_loaned_shm_provider_t<S>,
    backing: Backing,
    size: usize,
    alignment: z_alloc_alignment_t,
    context: zc_threadsafe_context_t,
    callback: Option<usize>,
    r: AsyncStart<S>,
    plain: AsyncStart<S>,
)
    requires
        call_ensures(
            z_shm_provider_alloc_gc_defrag_aligned_async::<S>,
            (out, Some(&provider), Some(&backing), size, alignment, context, callback),
            r,
        ),
        call_ensures(
            z_shm_provider_alloc_gc_defrag_async::<S>,
            (out, Some(&provider), Some(&backing), size, context, callback),
            plain,
        ),
    ensures
        out is None || callback is None || provider.state is None ==> r.code == -5,
        out is Some && callback is Some && provider.state is Some ==> r.code == (
        if backing is Native || backing->Foreign_0.threadsafe {
            0i8
        } else {
            -1i8
        }),
        r.job is Some == (r.code == 0),
        r.code == 0 ==> r.due is None,
        r.code != 0 ==> r.due is Some == context.delete_fn is Some,
        r.due is Some ==> r.due->0.drop == context.delete_fn->0 && r.due->0.context
            == context.context.ptr,
        r.job matches Some(job) ==> {
            &&& job.provider == provider.state->0
            &&& job.size == size
            &&& job.alignment == alignment
            &&& job.context.ptr == context.context.ptr
            &&& job.context.delete_fn == context.delete_fn
            &&& job.callback == callback->0
        },
        plain.code == r.code && plain.due == r.due && plain.job is Some == r.job is Some,
        plain.job matches Some(job) ==> {
            &&& job.provider == provider.state->0
            &&& job.size == size
            &&& job.alignment.pow == 0
            &&& job.context == r.job->0.context
            &&& job.callback == callback->0
        },
{
}

/// A job through a bound layout has the layout's provider, size and alignment, by the
/// same rules and under both names.
pub proof fn lemma_a_bound_job_is_what_was_asked_for<S>(
    out: Option<&z_buf_alloc_result_t<S>>,
    layout: z_loaned_precomputed_layout_t<S>,
    backing: Backing,
    context: zc_threadsafe_context_t,
    callback: Option<usize>,
    r: AsyncStart<S>,
    older: AsyncStart<S>,
)
    requires
        call_ensures(
            z_precomputed_layout_threadsafe_alloc_gc_defrag_async::<S>,
            (out, Some(&layout), Some(&backing), context, callback),
            r,
        ),
        call_ensures(
            z_alloc_layout_threadsafe_alloc_gc_defrag_async::<S>,
            (out, Some(&layout), Some(&backing), context, callback),
            older,
        ),
    ensures
        out is None || callback is None || layout.state is None ==> r.code == -5,
        out is Some && callback is Some && layout.state is Some ==> r.code == (
        if backing is Native || backing->Foreign_0.threadsafe {
            0i8
        } else {
            -1i8
        }),
        r.job is Some == (r.code == 0),
        r.code == 0 ==> r.due is None,
        r.code != 0 ==> r.due is Some == context.delete_fn is Some,
        r.due is Some ==> r.due->0.drop == context.delete_fn->0 && r.due->0.context
            == context.context.ptr,
        r.job matches Some(job) ==> {
            &&& job.provider == layout.state->0.provider
            &&& job.size == layout.state->0.size
            &&& job.alignment == layout.state->0.alignment
            &&& job.context.ptr == context.context.ptr
            &&& job.context.delete_fn == context.delete_fn
            &&& job.callback == callback->0
        },
        older.code == r.code && older.due == r.due && older.job == r.job,
{
}

/// A job attempts what it was asked for, waiting rather than failing, and ends with its
/// callback on its context and then the context's deletion.
pub proof fn lemma_a_job_attempts_and_ends<S>(
    job: AsyncJob<S>,
    out: &mut z_buf_layout_alloc_result_t<S>,
    backing: &mut Backing,
    progress: AllocProgress,
    narrow: &mut z_buf_alloc_result_t<S>,
    narrow_backing: &mut Backing,
    narrow_progress: AllocProgress,
    end: AsyncEnd,
)
    requires
        call_ensures(AsyncJob::<S>::attempt, (&job, out, backing), progress),
        call_ensures(
            AsyncJob::<S>::attempt_bound,
            (&job, narrow, narrow_backing),
            narrow_progress,
        ),
        call_ensures(AsyncJob::<S>::finish, (job,), end),
    ensures
        provider_alloc_outcome(
            Some(job.provider),
            *old(backing),
            *final(backing),
            job.size,
            job.alignment,
            true,
            *final(out),
            progress,
        ),
        precomputed_alloc_outcome(
            Some(
                PrecomputedLayoutState {
                    provider: job.provider,
                    size: job.size,
                    alignment: job.alignment,
                },
            ),
            *old(narrow_backing),
            *final(narrow_backing),
            true,
            *final(narrow),
            narrow_progress,
        ),
        end.call.call == job.callback,
        end.call.context == job.context.ptr,
        end.due is Some == job.context.delete_fn is Some,
        end.due is Some ==> end.due->0.drop == job.context.delete_fn->0 && end.due->0.context
            == job.context.ptr,
{
}

/// A job that asked a caller's allocator takes its report as any allocation that may wait
/// does.
pub proof fn lemma_a_job_takes_its_report<S>(
    job: AsyncJob<S>,
    out: &mut z_buf_layout_alloc_result_t<S>,
    backend: &mut ForeignBackend,
    reply: Option<ChunkAllocResult<S>>,
    r: (AllocProgress, Option<GiveBack<S>>),
    narrow: &mut z_buf_alloc_result_t<S>,
    other: &mut ForeignBackend,
    q: (AllocProgress, Option<GiveBack<S>>),
)
    requires
        job.provider is Foreign,
        old(backend).live < usize::MAX,
        old(other).live < usize::MAX,
        call_ensures(AsyncJob::<S>::reply, (&job, out, backend, reply), r),
        call_ensures(AsyncJob::<S>::reply_bound, (&job, narrow, other, reply), q),
    ensures
        ({
            let served = reply is Some && reply->0 is Allocated
                && reply->0->Allocated_descriptor.len >= job.size && reply->0->Allocated_ptr.ptr
                != 0;
            &&& final(out).buf.state is Some == served
            &&& final(out).status == (if served {
                0i32
            } else {
                1i32
            })
            &&& served ==> r.0 is Done && final(out).buf.state->0.len == job.size
                && final(out).buf.state->0.backing is Foreign
                && final(out).buf.state->0.backing->Foreign_backend == job.provider->Foreign_0
            &&& !served ==> (r.0 is Wait <==> old(backend).live > 0)
            &&& r.1 is Some <==> reply is Some && reply->0 is Allocated && !served
            &&& final(narrow).buf.state is Some == served
            &&& served ==> q.0 is Done && final(narrow).buf.state->0.len == job.size
            &&& !served ==> (q.0 is Wait <==> old(other).live > 0)
        }),
{
}

/// No payload is viewed as a buffer: a live one is not one, and a dead one is null.
pub proof fn lemma_no_payload_is_a_buffer<'a, S>(
    this_: Option<&z_loaned_bytes_t>,
    dst: &mut Option<&'a z_loaned_shm_t<S>>,
    code: ZResult,
)
    requires
        call_ensures(z_bytes_as_loaned_shm, (this_, Some(dst)), code),
    ensures
        *final(dst) is None,
        code == (if this_ is Some && this_->0.state is Some {
            -1i8
        } else {
            -5i8
        }),
{
}

} // verus!
