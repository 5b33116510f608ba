//! Providers: where a buffer's memory comes from, and one attempt to get some.
//!
//! A provider is a shared handle on its backing: a segment of this process, or
//! an allocator that the caller supplied as callbacks. The handle is opaque here;
//! whoever owns the backing locks it and passes it along with the handle.
//!
//! An allocation is a sequence of attempts. Each one ends the allocation, asks
//! the caller-supplied allocator, or has to wait for a release and start over.

use std::sync::Arc;

use vstd::prelude::*;

use crate::handle::gravestone;
use crate::handle::is_live;
use crate::handle::live;
use crate::handle::state_of;
use crate::handle::take;
use crate::handle::Moved;
use crate::handle::Owned;
use crate::result::ZResult;
use crate::result::Z_EINVAL;
use crate::result::Z_ENULL;
use crate::result::Z_OK;
use crate::shm::books::total;
use crate::shm::layout::align_byte;
use crate::shm::layout::alignment_bytes;
use crate::shm::layout::alignment_fits;
use crate::shm::layout::byte_alignment;
use crate::shm::layout::z_alloc_alignment_t;
use crate::shm::layout::z_loaned_memory_layout_t;
use crate::shm::layout::MemoryLayoutState;
use crate::shm::segment::can_be_laid_out;
use crate::shm::segment::can_serve;
use crate::shm::segment::layout_is_possible;
use crate::shm::segment::native_alloc;
use crate::shm::segment::refusal;
use crate::shm::segment::served;
use crate::shm::segment::widened;
use crate::shm::segment::z_alloc_error_t;
use crate::shm::segment::AllocStep;
use crate::shm::segment::Segment;
use crate::shm::segment::SEGMENT_ALIGN;
use crate::shm::segment::Z_ALLOC_ERROR_OTHER;

verus! {

/// How an allocation with a layout ended.
pub type zc_buf_layout_alloc_status_t = i32;

/// It was served.
pub const ZC_BUF_LAYOUT_ALLOC_STATUS_OK: zc_buf_layout_alloc_status_t = 0;

/// It failed to allocate.
pub const ZC_BUF_LAYOUT_ALLOC_STATUS_ALLOC_ERROR: zc_buf_layout_alloc_status_t = 1;

/// Its layout was refused.
pub const ZC_BUF_LAYOUT_ALLOC_STATUS_LAYOUT_ERROR: zc_buf_layout_alloc_status_t = 2;

/// Why a layout was refused.
pub type z_layout_error_t = i32;

/// The layout's arguments make no sense.
pub const Z_LAYOUT_ERROR_INCORRECT_LAYOUT_ARGS: z_layout_error_t = 0;

/// The provider cannot serve the layout.
pub const Z_LAYOUT_ERROR_PROVIDER_INCOMPATIBLE_LAYOUT: z_layout_error_t = 1;

/// Which of a caller-supplied allocator's segments.
pub type z_segment_id_t = u32;

/// Which chunk of one of its segments.
pub type z_chunk_id_t = u32;

/// A caller-supplied allocator's protocol.
pub type z_protocol_id_t = u32;

/// How a caller-supplied allocator names one of its chunks.
#[derive(Clone, Copy, Debug, PartialEq, Eq, Structural)]
pub struct z_chunk_descriptor_t {
    /// Which of the allocator's segments.
    pub segment: z_segment_id_t,
    /// Which chunk within it.
    pub chunk: z_chunk_id_t,
    /// The chunk's capacity in bytes.
    pub len: usize,
}

/// A caller-supplied allocator, as its callbacks. Each is the address of a
/// function, or absent.
#[derive(Clone, Copy, Debug, PartialEq, Eq, Structural)]
pub struct zc_shm_provider_backend_callbacks_t {
    /// Allocates for a layout.
    pub alloc_fn: Option<usize>,
    /// Takes a chunk back.
    pub free_fn: Option<usize>,
    /// Defragments, reporting what that made reachable.
    pub defragment_fn: Option<usize>,
    /// Reports the bytes still allocatable.
    pub available_fn: Option<usize>,
    /// Adjusts a layout to one the allocator can serve.
    pub layout_for_fn: Option<usize>,
    /// Reports the allocator's protocol.
    pub id_fn: Option<usize>,
}

/// The books over a caller-supplied allocator.
#[derive(Clone, Copy, Debug, PartialEq, Eq, Structural)]
pub struct ForeignBackend {
    pub callbacks: zc_shm_provider_backend_callbacks_t,
    /// Whether the caller promised that the callbacks may run concurrently.
    pub threadsafe: bool,
    /// Chunks the allocator has issued and not had back: what a blocking
    /// allocation could still wait for.
    pub live: usize,
}

/// What a provider's handle stands for.
pub enum Backing {
    /// A segment of this process.
    Native(Segment),
    /// An allocator the caller supplied.
    Foreign(ForeignBackend),
}

/// Where a provider's memory comes from.
pub enum Provider<S> {
    /// A segment of this process.
    Native(Arc<S>),
    /// An allocator the caller supplied.
    Foreign(Arc<S>),
}

/// A pointer into memory that a shared context keeps valid. Address 0 is null.
pub struct PtrInSegment<S> {
    pub ptr: usize,
    /// Kept alive for as long as the pointer is.
    pub _segment: Arc<S>,
}

/// Where a chunk's bytes live, and who takes them back.
pub enum ChunkBacking<S> {
    /// A range of a segment of this process.
    Native { segment: Arc<S>, start: usize },
    /// A chunk of a caller-supplied allocator.
    Foreign { backend: Arc<S>, descriptor: z_chunk_descriptor_t, ptr: PtrInSegment<S> },
}

/// One allocated chunk.
pub struct ShmChunk<S> {
    pub backing: ChunkBacking<S>,
    pub len: usize,
    /// Cleared once the chunk is frozen into an immutable buffer.
    pub mutable: bool,
}

/// What a caller-supplied allocator reports of one allocation.
pub enum ChunkAllocResult<S> {
    /// It allocated a chunk.
    Allocated { descriptor: z_chunk_descriptor_t, ptr: PtrInSegment<S> },
    /// It could not, and said why.
    Failed(z_alloc_error_t),
}

/// A chunk that its allocator has to be given back through its `free_fn`. What
/// the chunk kept alive stays alive until that call has returned.
pub struct GiveBack<S> {
    pub backend: Arc<S>,
    pub descriptor: z_chunk_descriptor_t,
    pub ptr: PtrInSegment<S>,
}

/// An owned provider.
pub type z_owned_shm_provider_t<S> = Owned<Provider<S>>;

/// A borrowed provider: the same slot.
pub type z_loaned_shm_provider_t<S> = Owned<Provider<S>>;

/// A provider on its way to be consumed.
pub type z_moved_shm_provider_t<S> = Moved<Provider<S>>;

/// An owned mutable buffer.
pub type z_owned_shm_mut_t<S> = Owned<ShmChunk<S>>;

/// A borrowed mutable buffer: the same slot.
pub type z_loaned_shm_mut_t<S> = Owned<ShmChunk<S>>;

/// A mutable buffer on its way to be consumed.
pub type z_moved_shm_mut_t<S> = Moved<ShmChunk<S>>;

/// The outcome of an allocation with a layout.
pub struct z_buf_layout_alloc_result_t<S> {
    /// Which of the three outcomes this is.
    pub status: zc_buf_layout_alloc_status_t,
    /// The buffer, live where `status` says served.
    pub buf: z_owned_shm_mut_t<S>,
    /// Why it failed to allocate.
    pub alloc_error: z_alloc_error_t,
    /// Why the layout was refused.
    pub layout_error: z_layout_error_t,
}

impl Backing {
    /// A segment's books are in order.
    pub open spec fn wf(&self) -> bool {
        match self {
            Backing::Native(segment) => segment.wf(),
            Backing::Foreign(_) => true,
        }
    }

    /// Whether the caller promised, or a segment gives, that allocations may run
    /// concurrently.
    pub open spec fn threadsafe(&self) -> bool {
        match self {
            Backing::Native(_) => true,
            Backing::Foreign(backend) => backend.threadsafe,
        }
    }
}

impl<S> Provider<S> {
    /// Whether `backing` is of the provider's kind and in order.
    pub open spec fn backed_by(&self, backing: &Backing) -> bool {
        &&& self is Native <==> backing is Native
        &&& backing.wf()
    }

    /// Another handle on the same backing.
    pub fn share(&self) -> (other: Provider<S>)
        ensures
            other == *self,
    {
        match self {
            Provider::Native(handle) => Provider::Native(handle.clone()),
            Provider::Foreign(handle) => Provider::Foreign(handle.clone()),
        }
    }

    /// The handle on the backing.
    pub open spec fn handle(&self) -> Arc<S> {
        match *self {
            Provider::Native(handle) => handle,
            Provider::Foreign(handle) => handle,
        }
    }

    /// Borrows the handle on the backing.
    pub fn held(&self) -> (handle: &Arc<S>)
        ensures
            *handle == self.handle(),
    {
        match self {
            Provider::Native(handle) => handle,
            Provider::Foreign(handle) => handle,
        }
    }

    /// Whether allocations on the provider may run on another thread.
    pub fn is_threadsafe(&self, backing: &Backing) -> (r: bool)
        ensures
            r == backing.threadsafe(),
    {
        match backing {
            Backing::Native(_) => true,
            Backing::Foreign(backend) => backend.threadsafe,
        }
    }
}

/// One attempt at an allocation.
pub enum ProviderStep<S> {
    /// It was served.
    Ready(ShmChunk<S>),
    /// It failed for good.
    Refused(z_alloc_error_t),
    /// It has to wait for a release and be tried again.
    Wait,
    /// The caller-supplied allocator has to be asked for this layout.
    Ask(MemoryLayoutState),
}

/// What a failed attempt on a caller-supplied allocator comes to: a blocking one
/// waits where some chunk could still come back, every other one fails.
pub open spec fn turned_down<S>(
    backend: ForeignBackend,
    reason: z_alloc_error_t,
    blocking: bool,
) -> ProviderStep<S> {
    if blocking && backend.live > 0 {
        ProviderStep::Wait
    } else {
        ProviderStep::Refused(reason)
    }
}

impl<S> ShmChunk<S> {
    /// Where in its segment a chunk starts; 0 for a chunk that has none.
    pub open spec fn start(&self) -> usize {
        match self.backing {
            ChunkBacking::Native { start, .. } => start,
            ChunkBacking::Foreign { .. } => 0,
        }
    }
}

/// Whether `chunk` is a new mutable chunk of `size` bytes of a segment.
pub open spec fn is_new_native_chunk<S>(chunk: ShmChunk<S>, segment: Arc<S>, size: usize) -> bool {
    &&& chunk.backing == (ChunkBacking::Native { segment, start: chunk.start() })
    &&& chunk.len == size
    &&& chunk.mutable
}

/// What one attempt does.
pub open spec fn attempted<S>(
    provider: Provider<S>,
    before: Backing,
    after: Backing,
    size: usize,
    alignment: z_alloc_alignment_t,
    blocking: bool,
    step: ProviderStep<S>,
) -> bool {
    let align = alignment.bytes() as usize;
    match (provider, before, after) {
        (Provider::Native(handle), Backing::Native(was), Backing::Native(is)) => {
            &&& is.wf()
            &&& is.same_memory(&was)
            &&& if can_serve(&was, size, align) {
                step matches ProviderStep::Ready(chunk) && is_new_native_chunk(chunk, handle, size)
                    && served(&was, &is, size, align, chunk.start())
            } else {
                &&& is.books.free@ == was.books.free@
                &&& step == if size > was.len || !blocking {
                    ProviderStep::<S>::Refused(refusal(&was, size))
                } else {
                    ProviderStep::Wait
                }
            }
        },
        (Provider::Foreign(_), Backing::Foreign(backend), Backing::Foreign(_)) => {
            &&& after == before
            &&& step == if backend.callbacks.alloc_fn is Some {
                ProviderStep::<S>::Ask(MemoryLayoutState { size, alignment })
            } else {
                turned_down(backend, Z_ALLOC_ERROR_OTHER, blocking)
            }
        },
        _ => false,
    }
}

fn turn_down<S>(backend: &ForeignBackend, reason: z_alloc_error_t, blocking: bool) -> (step:
    ProviderStep<S>)
    ensures
        step == turned_down::<S>(*backend, reason, blocking),
{
    if blocking && backend.live > 0 {
        ProviderStep::Wait
    } else {
        ProviderStep::Refused(reason)
    }
}

impl<S> Provider<S> {
    /// Attempts to allocate `size` bytes.
    pub fn attempt(
        &self,
        backing: &mut Backing,
        size: usize,
        alignment: z_alloc_alignment_t,
        blocking: bool,
    ) -> (step: ProviderStep<S>)
        requires
            self.backed_by(old(backing)),
            alignment.fits(),
        ensures
            attempted(*self, *old(backing), *final(backing), size, alignment, blocking, step),
            self.backed_by(final(backing)),
    {
        match self {
            Provider::Native(handle) => {
                let align: usize = alignment_bytes(alignment);
                match backing {
                    Backing::Native(segment) => {
                        match native_alloc(segment, size, align, blocking) {
                            AllocStep::Ready(start) => ProviderStep::Ready(
                                ShmChunk {
                                    backing: ChunkBacking::Native {
                                        segment: handle.clone(),
                                        start,
                                    },
                                    len: size,
                                    mutable: true,
                                },
                            ),
                            AllocStep::Refused(reason) => ProviderStep::Refused(reason),
                            AllocStep::Wait => ProviderStep::Wait,
                        }
                    },
                    Backing::Foreign(_) => ProviderStep::Refused(Z_ALLOC_ERROR_OTHER),
                }
            },
            Provider::Foreign(_) => {
                match backing {
                    Backing::Foreign(backend) => {
                        if backend.callbacks.alloc_fn.is_some() {
                            ProviderStep::Ask(MemoryLayoutState { size, alignment })
                        } else {
                            turn_down(backend, Z_ALLOC_ERROR_OTHER, blocking)
                        }
                    },
                    Backing::Native(_) => ProviderStep::Refused(Z_ALLOC_ERROR_OTHER),
                }
            },
        }
    }
}

/// What a caller-supplied allocator's report comes to.
pub open spec fn replied<S>(
    handle: Arc<S>,
    before: ForeignBackend,
    after: ForeignBackend,
    size: usize,
    blocking: bool,
    reply: Option<ChunkAllocResult<S>>,
    step: ProviderStep<S>,
    give_back: Option<GiveBack<S>>,
) -> bool {
    match reply {
        None => {
            &&& after == before
            &&& give_back is None
            &&& step == turned_down::<S>(before, Z_ALLOC_ERROR_OTHER, blocking)
        },
        Some(ChunkAllocResult::Failed(reason)) => {
            &&& after == before
            &&& give_back is None
            &&& step == turned_down::<S>(before, reason, blocking)
        },
        Some(ChunkAllocResult::Allocated { descriptor, ptr }) => if descriptor.len < size || ptr.ptr
            == 0 {
            &&& after == before
            &&& give_back == Some(GiveBack { backend: handle, descriptor, ptr })
            &&& step == turned_down::<S>(before, Z_ALLOC_ERROR_OTHER, blocking)
        } else {
            &&& after == before.with_one()
            &&& give_back is None
            &&& step == ProviderStep::Ready(
                ShmChunk {
                    backing: ChunkBacking::Foreign { backend: handle, descriptor, ptr },
                    len: size,
                    mutable: true,
                },
            )
        },
    }
}

impl ForeignBackend {
    /// One more chunk outstanding.
    pub open spec fn with_one(self) -> ForeignBackend {
        ForeignBackend { live: (self.live + 1) as usize, ..self }
    }

    /// One chunk less outstanding, where there was one.
    pub open spec fn without_one(self) -> ForeignBackend {
        ForeignBackend {
            live: if self.live == 0 {
                0
            } else {
                (self.live - 1) as usize
            },
            ..self
        }
    }

    /// Books a chunk that came back.
    pub fn note_free(&mut self)
        ensures
            *final(self) == old(self).without_one(),
    {
        if self.live > 0 {
            self.live = self.live - 1;
        }
    }

    /// Decides what the allocator's report on a request for `size` bytes comes
    /// to. A chunk that is shorter than asked for, or that has no address, is not
    /// trusted: it goes back to the allocator and the attempt has failed. It was
    /// never outstanding, so going back does not count one off.
    pub fn settle<S>(
        &mut self,
        handle: &Arc<S>,
        size: usize,
        blocking: bool,
        reply: Option<ChunkAllocResult<S>>,
    ) -> (r: (ProviderStep<S>, Option<GiveBack<S>>))
        requires
            old(self).live < usize::MAX,
        ensures
            replied(*handle, *old(self), *final(self), size, blocking, reply, r.0, r.1),
    {
        match reply {
            None => (turn_down(self, Z_ALLOC_ERROR_OTHER, blocking), None),
            Some(ChunkAllocResult::Failed(reason)) => (turn_down(self, reason, blocking), None),
            Some(ChunkAllocResult::Allocated { descriptor, ptr }) => {
                if descriptor.len < size || ptr.ptr == 0 {
                    let step = turn_down(self, Z_ALLOC_ERROR_OTHER, blocking);
                    (step, Some(GiveBack { backend: handle.clone(), descriptor, ptr }))
                } else {
                    self.live = self.live + 1;
                    (
                        ProviderStep::Ready(
                            ShmChunk {
                                backing: ChunkBacking::Foreign {
                                    backend: handle.clone(),
                                    descriptor,
                                    ptr,
                                },
                                len: size,
                                mutable: true,
                            },
                        ),
                        None,
                    )
                }
            },
        }
    }
}

/// An attempt waits only where its caller may block and a release can come: on a
/// segment that the request fits into at all, or on an allocator with a chunk
/// outstanding.
pub proof fn lemma_a_wait_can_end<S>(
    provider: Provider<S>,
    before: Backing,
    after: Backing,
    size: usize,
    alignment: z_alloc_alignment_t,
    blocking: bool,
)
    requires
        attempted(provider, before, after, size, alignment, blocking, ProviderStep::Wait),
    ensures
        blocking,
        match before {
            Backing::Native(segment) => size <= segment.len,
            Backing::Foreign(backend) => backend.live > 0,
        },
{
}

/// A request that its allocator turned down waits only where its caller may block
/// and a chunk is outstanding. Any other one ends.
pub proof fn lemma_a_turned_down_request_waits_for_a_chunk<S>(
    handle: Arc<S>,
    before: ForeignBackend,
    after: ForeignBackend,
    size: usize,
    blocking: bool,
    reply: Option<ChunkAllocResult<S>>,
    give_back: Option<GiveBack<S>>,
)
    requires
        replied(handle, before, after, size, blocking, reply, ProviderStep::Wait, give_back),
    ensures
        blocking,
        after.live > 0,
{
}

/// The chunks outstanding are those that were served: a report that serves one
/// counts it, and any other leaves the count alone, also where a chunk that was
/// refused goes back.
pub proof fn lemma_only_a_served_chunk_is_outstanding<S>(
    handle: Arc<S>,
    before: ForeignBackend,
    after: ForeignBackend,
    size: usize,
    blocking: bool,
    reply: Option<ChunkAllocResult<S>>,
    step: ProviderStep<S>,
    give_back: Option<GiveBack<S>>,
)
    requires
        before.live < usize::MAX,
        replied(handle, before, after, size, blocking, reply, step, give_back),
    ensures
        after.live == before.live + (if step is Ready {
            1int
        } else {
            0int
        }),
        give_back is Some ==> !(step is Ready),
{
}

/// A chunk that was served and came back leaves the allocator's books as they were.
pub proof fn lemma_a_chunk_that_came_back_is_not_outstanding(backend: ForeignBackend)
    requires
        backend.live < usize::MAX,
    ensures
        backend.with_one().without_one() == backend,
        backend.with_one().live > 0,
{
}

/// How far an allocation got after an attempt.
pub enum AllocProgress {
    /// It ended; the result says how.
    Done,
    /// It has to wait for a release and be tried again.
    Wait,
    /// The caller-supplied allocator has to be asked for this layout.
    Ask(MemoryLayoutState),
}

/// The result that no outcome has been written into yet.
pub open spec fn failure_shape<S>() -> z_buf_layout_alloc_result_t<S> {
    z_buf_layout_alloc_result_t {
        status: ZC_BUF_LAYOUT_ALLOC_STATUS_ALLOC_ERROR,
        buf: Owned { state: None },
        alloc_error: Z_ALLOC_ERROR_OTHER,
        layout_error: Z_LAYOUT_ERROR_INCORRECT_LAYOUT_ARGS,
    }
}

/// The result of a request whose alignment fits no `usize`.
pub open spec fn layout_refused<S>() -> z_buf_layout_alloc_result_t<S> {
    z_buf_layout_alloc_result_t {
        status: ZC_BUF_LAYOUT_ALLOC_STATUS_LAYOUT_ERROR,
        ..failure_shape()
    }
}

/// The result an attempt leaves.
pub open spec fn result_of<S>(step: ProviderStep<S>) -> z_buf_layout_alloc_result_t<S> {
    match step {
        ProviderStep::Ready(chunk) => z_buf_layout_alloc_result_t {
            status: ZC_BUF_LAYOUT_ALLOC_STATUS_OK,
            buf: Owned { state: Some(chunk) },
            ..failure_shape()
        },
        ProviderStep::Refused(reason) => z_buf_layout_alloc_result_t {
            alloc_error: reason,
            ..failure_shape()
        },
        ProviderStep::Wait => failure_shape(),
        ProviderStep::Ask(_) => failure_shape(),
    }
}

/// How far an attempt gets the allocation.
pub open spec fn progress_of<S>(step: ProviderStep<S>) -> AllocProgress {
    match step {
        ProviderStep::Ready(_) => AllocProgress::Done,
        ProviderStep::Refused(_) => AllocProgress::Done,
        ProviderStep::Wait => AllocProgress::Wait,
        ProviderStep::Ask(layout) => AllocProgress::Ask(layout),
    }
}

/// The attempt that left a result.
pub open spec fn step_of<S>(
    out: z_buf_layout_alloc_result_t<S>,
    progress: AllocProgress,
) -> ProviderStep<S> {
    match progress {
        AllocProgress::Done => match out.buf.state {
            Some(chunk) => ProviderStep::Ready(chunk),
            None => ProviderStep::Refused(out.alloc_error),
        },
        AllocProgress::Wait => ProviderStep::Wait,
        AllocProgress::Ask(layout) => ProviderStep::Ask(layout),
    }
}

fn settle_result<S>(step: ProviderStep<S>) -> (r: (z_buf_layout_alloc_result_t<S>, AllocProgress))
    ensures
        r.0 == result_of(step),
        r.1 == progress_of(step),
{
    let mut out = z_buf_layout_alloc_result_t {
        status: ZC_BUF_LAYOUT_ALLOC_STATUS_ALLOC_ERROR,
        buf: Owned::null_value(),
        alloc_error: Z_ALLOC_ERROR_OTHER,
        layout_error: Z_LAYOUT_ERROR_INCORRECT_LAYOUT_ARGS,
    };
    match step {
        ProviderStep::Ready(chunk) => {
            out.status = ZC_BUF_LAYOUT_ALLOC_STATUS_OK;
            out.buf = Owned::from_state(chunk);
            (out, AllocProgress::Done)
        },
        ProviderStep::Refused(reason) => {
            out.alloc_error = reason;
            (out, AllocProgress::Done)
        },
        ProviderStep::Wait => (out, AllocProgress::Wait),
        ProviderStep::Ask(layout) => (out, AllocProgress::Ask(layout)),
    }
}

/// What a provider's allocation does to its backing and writes as its result.
pub open spec fn provider_alloc_outcome<S>(
    provider: Option<Provider<S>>,
    before: Backing,
    after: Backing,
    size: usize,
    alignment: z_alloc_alignment_t,
    blocking: bool,
    out: z_buf_layout_alloc_result_t<S>,
    progress: AllocProgress,
) -> bool {
    match provider {
        None => {
            &&& after == before
            &&& out == failure_shape::<S>()
            &&& progress is Done
        },
        Some(provider) => if alignment.fits() {
            let step = step_of(out, progress);
            &&& attempted(provider, before, after, size, alignment, blocking, step)
            &&& out == result_of(step)
        } else {
            &&& after == before
            &&& out == layout_refused::<S>()
            &&& progress is Done
        },
    }
}

/// The shared body of every allocation on a provider. The failure shape is what
/// a caller finds wherever nothing else is written.
pub fn provider_alloc<S>(
    out: Option<&mut z_buf_layout_alloc_result_t<S>>,
    provider: Option<&z_loaned_shm_provider_t<S>>,
    backing: Option<&mut Backing>,
    size: usize,
    alignment: z_alloc_alignment_t,
    blocking: bool,
) -> (progress: AllocProgress)
    requires
        live(provider) matches Some(p) ==> (backing matches Some(b) && p.backed_by(b)),
    ensures
        match (out, backing) {
            (None, None) => progress is Done,
            (None, Some(b)) => progress is Done && *final(b) == *b,
            (Some(o), None) => progress is Done && *final(o) == failure_shape::<S>(),
            (Some(o), Some(b)) => provider_alloc_outcome(
                live(provider),
                *b,
                *final(b),
                size,
                alignment,
                blocking,
                *final(o),
                progress,
            ),
        },
{
    let out = match out {
        Some(out) => out,
        None => {
            return AllocProgress::Done;
        },
    };
    out.status = ZC_BUF_LAYOUT_ALLOC_STATUS_ALLOC_ERROR;
    out.buf = Owned::null_value();
    out.alloc_error = Z_ALLOC_ERROR_OTHER;
    out.layout_error = Z_LAYOUT_ERROR_INCORRECT_LAYOUT_ARGS;
    match (state_of(provider), backing) {
        (Some(provider), Some(backing)) => {
            if !alignment_fits(alignment) {
                out.status = ZC_BUF_LAYOUT_ALLOC_STATUS_LAYOUT_ERROR;
                return AllocProgress::Done;
            }
            let (result, progress) = settle_result(
                provider.attempt(backing, size, alignment, blocking),
            );
            *out = result;
            progress
        },
        _ => AllocProgress::Done,
    }
}

/// Ends an attempt that asked a caller-supplied allocator, given its report.
/// Where a chunk has to go back, it goes back before anything else is done.
pub fn provider_alloc_reply<S>(
    out: &mut z_buf_layout_alloc_result_t<S>,
    handle: &Arc<S>,
    backend: &mut ForeignBackend,
    size: usize,
    blocking: bool,
    reply: Option<ChunkAllocResult<S>>,
) -> (r: (AllocProgress, Option<GiveBack<S>>))
    requires
        old(backend).live < usize::MAX,
    ensures
        replied(
            *handle,
            *old(backend),
            *final(backend),
            size,
            blocking,
            reply,
            step_of(*final(out), r.0),
            r.1,
        ),
        *final(out) == result_of(step_of(*final(out), r.0)),
{
    let (step, give_back) = backend.settle(handle, size, blocking, reply);
    let (result, progress) = settle_result(step);
    *out = result;
    (progress, give_back)
}

/// Allocates a buffer.
pub fn z_shm_provider_alloc<S>(
    out_result: Option<&mut z_buf_layout_alloc_result_t<S>>,
    provider: Option<&z_loaned_shm_provider_t<S>>,
    backing: Option<&mut Backing>,
    size: usize,
) -> (progress: AllocProgress)
    requires
        live(provider) matches Some(p) ==> (backing matches Some(b) && p.backed_by(b)),
    ensures
        match (out_result, backing) {
            (None, None) => progress is Done,
            (None, Some(b)) => progress is Done && *final(b) == *b,
            (Some(o), None) => progress is Done && *final(o) == failure_shape::<S>(),
            (Some(o), Some(b)) => provider_alloc_outcome(
                live(provider),
                *b,
                *final(b),
                size,
                byte_alignment(),
                false,
                *final(o),
                progress,
            ),
        },
{
    provider_alloc(out_result, provider, backing, size, align_byte(), false)
}

/// Allocates an aligned buffer.
pub fn z_shm_provider_alloc_aligned<S>(
    out_result: Option<&mut z_buf_layout_alloc_result_t<S>>,
    provider: Option<&z_loaned_shm_provider_t<S>>,
    backing: Option<&mut Backing>,
    size: usize,
    alignment: z_alloc_alignment_t,
) -> (progress: AllocProgress)
    requires
        live(provider) matches Some(p) ==> (backing matches Some(b) && p.backed_by(b)),
    ensures
        match (out_result, backing) {
            (None, None) => progress is Done,
            (None, Some(b)) => progress is Done && *final(b) == *b,
            (Some(o), None) => progress is Done && *final(o) == failure_shape::<S>(),
            (Some(o), Some(b)) => provider_alloc_outcome(
                live(provider),
                *b,
                *final(b),
                size,
                alignment,
                false,
                *final(o),
                progress,
            ),
        },
{
    provider_alloc(out_result, provider, backing, size, alignment, false)
}

/// Allocates a buffer, reclaiming released chunks first: a chunk is reclaimed
/// when it is released, so there is none left to find.
pub fn z_shm_provider_alloc_gc<S>(
    out_result: Option<&mut z_buf_layout_alloc_result_t<S>>,
    provider: Option<&z_loaned_shm_provider_t<S>>,
    backing: Option<&mut Backing>,
    size: usize,
) -> (progress: AllocProgress)
    requires
        live(provider) matches Some(p) ==> (backing matches Some(b) && p.backed_by(b)),
    ensures
        match (out_result, backing) {
            (None, None) => progress is Done,
            (None, Some(b)) => progress is Done && *final(b) == *b,
            (Some(o), None) => progress is Done && *final(o) == failure_shape::<S>(),
            (Some(o), Some(b)) => provider_alloc_outcome(
                live(provider),
                *b,
                *final(b),
                size,
                byte_alignment(),
                false,
                *final(o),
                progress,
            ),
        },
{
    provider_alloc(out_result, provider, backing, size, align_byte(), false)
}

/// The aligned twin of [`z_shm_provider_alloc_gc`].
pub fn z_shm_provider_alloc_gc_aligned<S>(
    out_result: Option<&mut z_buf_layout_alloc_result_t<S>>,
    provider: Option<&z_loaned_shm_provider_t<S>>,
    backing: Option<&mut Backing>,
    size: usize,
    alignment: z_alloc_alignment_t,
) -> (progress: AllocProgress)
    requires
        live(provider) matches Some(p) ==> (backing matches Some(b) && p.backed_by(b)),
    ensures
        match (out_result, backing) {
            (None, None) => progress is Done,
            (None, Some(b)) => progress is Done && *final(b) == *b,
            (Some(o), None) => progress is Done && *final(o) == failure_shape::<S>(),
            (Some(o), Some(b)) => provider_alloc_outcome(
                live(provider),
                *b,
                *final(b),
                size,
                alignment,
                false,
                *final(o),
                progress,
            ),
        },
{
    provider_alloc(out_result, provider, backing, size, alignment, false)
}

/// Allocates a buffer, reclaiming and defragmenting first: free ranges merge
/// when they are released, so there is nothing left to move together.
pub fn z_shm_provider_alloc_gc_defrag<S>(
    out_result: Option<&mut z_buf_layout_alloc_result_t<S>>,
    provider: Option<&z_loaned_shm_provider_t<S>>,
    backing: Option<&mut Backing>,
    size: usize,
) -> (progress: AllocProgress)
    requires
        live(provider) matches Some(p) ==> (backing matches Some(b) && p.backed_by(b)),
    ensures
        match (out_result, backing) {
            (None, None) => progress is Done,
            (None, Some(b)) => progress is Done && *final(b) == *b,
            (Some(o), None) => progress is Done && *final(o) == failure_shape::<S>(),
            (Some(o), Some(b)) => provider_alloc_outcome(
                live(provider),
                *b,
                *final(b),
                size,
                byte_alignment(),
                false,
                *final(o),
                progress,
            ),
        },
{
    provider_alloc(out_result, provider, backing, size, align_byte(), false)
}

/// The aligned twin of [`z_shm_provider_alloc_gc_defrag`].
pub fn z_shm_provider_alloc_gc_defrag_aligned<S>(
    out_result: Option<&mut z_buf_layout_alloc_result_t<S>>,
    provider: Option<&z_loaned_shm_provider_t<S>>,
    backing: Option<&mut Backing>,
    size: usize,
    alignment: z_alloc_alignment_t,
) -> (progress: AllocProgress)
    requires
        live(provider) matches Some(p) ==> (backing matches Some(b) && p.backed_by(b)),
    ensures
        match (out_result, backing) {
            (None, None) => progress is Done,
            (None, Some(b)) => progress is Done && *final(b) == *b,
            (Some(o), None) => progress is Done && *final(o) == failure_shape::<S>(),
            (Some(o), Some(b)) => provider_alloc_outcome(
                live(provider),
                *b,
                *final(b),
                size,
                alignment,
                false,
                *final(o),
                progress,
            ),
        },
{
    provider_alloc(out_result, provider, backing, size, alignment, false)
}

/// Allocates a buffer, reclaiming and defragmenting first. No live chunk is
/// taken from its owner for it.
pub fn z_shm_provider_alloc_gc_defrag_dealloc<S>(
    out_result: Option<&mut z_buf_layout_alloc_result_t<S>>,
    provider: Option<&z_loaned_shm_provider_t<S>>,
    backing: Option<&mut Backing>,
    size: usize,
) -> (progress: AllocProgress)
    requires
        live(provider) matches Some(p) ==> (backing matches Some(b) && p.backed_by(b)),
    ensures
        match (out_result, backing) {
            (None, None) => progress is Done,
            (None, Some(b)) => progress is Done && *final(b) == *b,
            (Some(o), None) => progress is Done && *final(o) == failure_shape::<S>(),
            (Some(o), Some(b)) => provider_alloc_outcome(
                live(provider),
                *b,
                *final(b),
                size,
                byte_alignment(),
                false,
                *final(o),
                progress,
            ),
        },
{
    provider_alloc(out_result, provider, backing, size, align_byte(), false)
}

/// The aligned twin of [`z_shm_provider_alloc_gc_defrag_dealloc`].
pub fn z_shm_provider_alloc_gc_defrag_dealloc_aligned<S>(
    out_result: Option<&mut z_buf_layout_alloc_result_t<S>>,
    provider: Option<&z_loaned_shm_provider_t<S>>,
    backing: Option<&mut Backing>,
    size: usize,
    alignment: z_alloc_alignment_t,
) -> (progress: AllocProgress)
    requires
        live(provider) matches Some(p) ==> (backing matches Some(b) && p.backed_by(b)),
    ensures
        match (out_result, backing) {
            (None, None) => progress is Done,
            (None, Some(b)) => progress is Done && *final(b) == *b,
            (Some(o), None) => progress is Done && *final(o) == failure_shape::<S>(),
            (Some(o), Some(b)) => provider_alloc_outcome(
                live(provider),
                *b,
                *final(b),
                size,
                alignment,
                false,
                *final(o),
                progress,
            ),
        },
{
    provider_alloc(out_result, provider, backing, size, alignment, false)
}

/// Allocates a buffer, waiting for a release rather than failing.
pub fn z_shm_provider_alloc_gc_defrag_blocking<S>(
    out_result: Option<&mut z_buf_layout_alloc_result_t<S>>,
    provider: Option<&z_loaned_shm_provider_t<S>>,
    backing: Option<&mut Backing>,
    size: usize,
) -> (progress: AllocProgress)
    requires
        live(provider) matches Some(p) ==> (backing matches Some(b) && p.backed_by(b)),
    ensures
        match (out_result, backing) {
            (None, None) => progress is Done,
            (None, Some(b)) => progress is Done && *final(b) == *b,
            (Some(o), None) => progress is Done && *final(o) == failure_shape::<S>(),
            (Some(o), Some(b)) => provider_alloc_outcome(
                live(provider),
                *b,
                *final(b),
                size,
                byte_alignment(),
                true,
                *final(o),
                progress,
            ),
        },
{
    provider_alloc(out_result, provider, backing, size, align_byte(), true)
}

/// The aligned twin of [`z_shm_provider_alloc_gc_defrag_blocking`].
pub fn z_shm_provider_alloc_gc_defrag_blocking_aligned<S>(
    out_result: Option<&mut z_buf_layout_alloc_result_t<S>>,
    provider: Option<&z_loaned_shm_provider_t<S>>,
    backing: Option<&mut Backing>,
    size: usize,
    alignment: z_alloc_alignment_t,
) -> (progress: AllocProgress)
    requires
        live(provider) matches Some(p) ==> (backing matches Some(b) && p.backed_by(b)),
    ensures
        match (out_result, backing) {
            (None, None) => progress is Done,
            (None, Some(b)) => progress is Done && *final(b) == *b,
            (Some(o), None) => progress is Done && *final(o) == failure_shape::<S>(),
            (Some(o), Some(b)) => provider_alloc_outcome(
                live(provider),
                *b,
                *final(b),
                size,
                alignment,
                true,
                *final(o),
                progress,
            ),
        },
{
    provider_alloc(out_result, provider, backing, size, alignment, true)
}

/// Whether `shared` is what `mint` makes of a segment.
pub open spec fn minted<S, M: FnOnce(Backing) -> S>(mint: M, segment: Segment, shared: S) -> bool {
    call_ensures(mint, (Backing::Native(segment),), shared)
}

/// Whether `mint` may be handed a fresh segment of this size and alignment, where
/// one can be laid out.
pub open spec fn may_mint<S, M: FnOnce(Backing) -> S>(mint: M, size: usize, align: usize) -> bool {
    can_be_laid_out(size, align) ==> forall|segment: Segment|
        segment.wf() && segment.is_fresh(size, align) ==> #[trigger] call_requires(
            mint,
            (Backing::Native(segment),),
        )
}

/// Whether `slot` is a new provider on a fresh segment that `mint` made shared.
pub open spec fn is_new_native_provider<S, M: FnOnce(Backing) -> S>(
    slot: z_owned_shm_provider_t<S>,
    size: usize,
    align: usize,
    mint: M,
) -> bool {
    &&& slot.state is Some
    &&& slot.state->0 is Native
    &&& exists|segment: Segment|
        segment.wf() && segment.is_fresh(size, align) && #[trigger] minted(
            mint,
            segment,
            *slot.state->0->Native_0,
        )
}

proof fn lemma_new_native_provider<S, M: FnOnce(Backing) -> S>(
    slot: z_owned_shm_provider_t<S>,
    size: usize,
    align: usize,
    mint: M,
    segment: Segment,
)
    requires
        slot.state is Some,
        slot.state->0 is Native,
        segment.wf(),
        segment.is_fresh(size, align),
        minted(mint, segment, *slot.state->0->Native_0),
    ensures
        is_new_native_provider(slot, size, align, mint),
{
}

fn native_provider_new<S, M: FnOnce(Backing) -> S>(
    slot: &mut z_owned_shm_provider_t<S>,
    size: usize,
    align: usize,
    mint: M,
) -> (code: ZResult)
    requires
        align > 0,
        may_mint(mint, size, widened(align)),
    ensures
        if can_be_laid_out(size, widened(align)) {
            code == Z_OK && is_new_native_provider(*final(slot), size, widened(align), mint)
        } else {
            code == Z_EINVAL && final(slot).state is None
        },
{
    slot.state = None;
    let wide: usize = if align < SEGMENT_ALIGN {
        SEGMENT_ALIGN
    } else {
        align
    };
    if !layout_is_possible(size, wide) {
        return Z_EINVAL;
    }
    let segment = Segment::with_alignment(size, align);
    let ghost fresh = segment;
    let shared = mint(Backing::Native(segment));
    let handle = Arc::new(shared);
    proof {
        assert(minted(mint, fresh, *handle));
    }
    slot.state = Some(Provider::Native(handle));
    proof {
        lemma_new_native_provider(*slot, size, widened(align), mint, fresh);
    }
    Z_OK
}

/// Creates a provider that owns a segment of `size` bytes. `mint` makes the
/// segment shared. A size that no memory can be laid out for is refused.
pub fn z_shm_provider_default_new<S, M: FnOnce(Backing) -> S>(
    this_: Option<&mut z_owned_shm_provider_t<S>>,
    size: usize,
    mint: M,
) -> (code: ZResult)
    requires
        this_ is Some ==> may_mint(mint, size, SEGMENT_ALIGN),
    ensures
        match this_ {
            None => code == Z_ENULL,
            Some(slot) => if can_be_laid_out(size, SEGMENT_ALIGN) {
                code == Z_OK && is_new_native_provider(*final(slot), size, SEGMENT_ALIGN, mint)
            } else {
                code == Z_EINVAL && final(slot).state is None
            },
        },
{
    match this_ {
        None => Z_ENULL,
        Some(slot) => native_provider_new(slot, size, SEGMENT_ALIGN, mint),
    }
}

/// Creates a provider on the built-in backend: the default one.
pub fn z_posix_shm_provider_new<S, M: FnOnce(Backing) -> S>(
    this_: Option<&mut z_owned_shm_provider_t<S>>,
    size: usize,
    mint: M,
) -> (code: ZResult)
    requires
        this_ is Some ==> may_mint(mint, size, SEGMENT_ALIGN),
    ensures
        match this_ {
            None => code == Z_ENULL,
            Some(slot) => if can_be_laid_out(size, SEGMENT_ALIGN) {
                code == Z_OK && is_new_native_provider(*final(slot), size, SEGMENT_ALIGN, mint)
            } else {
                code == Z_EINVAL && final(slot).state is None
            },
        },
{
    z_shm_provider_default_new(this_, size, mint)
}

/// Creates a provider on the built-in backend, sized and aligned by a layout.
/// The alignment reaches the segment's base.
pub fn z_posix_shm_provider_with_layout_new<S, M: FnOnce(Backing) -> S>(
    this_: Option<&mut z_owned_shm_provider_t<S>>,
    layout: Option<&z_loaned_memory_layout_t>,
    mint: M,
) -> (code: ZResult)
    requires
        (this_, live(layout)) matches (Some(_), Some(state)) ==> (state.alignment.fits()
            ==> may_mint(mint, state.size, widened(state.alignment.bytes() as usize))),
    ensures
        match this_ {
            None => code == Z_ENULL,
            Some(slot) => match live(layout) {
                None => code == Z_ENULL && final(slot).state is None,
                Some(state) => {
                    let align = widened(state.alignment.bytes() as usize);
                    if state.alignment.fits() && can_be_laid_out(state.size, align) {
                        code == Z_OK && is_new_native_provider(
                            *final(slot),
                            state.size,
                            align,
                            mint,
                        )
                    } else {
                        code == Z_EINVAL && final(slot).state is None
                    }
                },
            },
        },
{
    match this_ {
        None => Z_ENULL,
        Some(slot) => {
            slot.state = None;
            match state_of(layout) {
                None => Z_ENULL,
                Some(state) => {
                    if !alignment_fits(state.alignment) {
                        return Z_EINVAL;
                    }
                    native_provider_new(slot, state.size, alignment_bytes(state.alignment), mint)
                },
            }
        },
    }
}

/// A figure about a provider: known from its books, or to be asked of the
/// caller-supplied allocator's callback.
#[derive(Clone, Copy, Debug, PartialEq, Eq, Structural)]
pub enum Figure {
    Known(usize),
    AskBackend,
}

/// Bytes still allocatable from a provider. A caller-supplied allocator without
/// an `available_fn` has none.
pub fn z_shm_provider_available<S>(
    provider: Option<&z_loaned_shm_provider_t<S>>,
    backing: Option<&Backing>,
) -> (figure: Figure)
    requires
        live(provider) matches Some(p) ==> (backing matches Some(b) && p.backed_by(b)),
    ensures
        figure == (match live(provider) {
            None => Figure::Known(0),
            Some(_) => match backing {
                Some(Backing::Native(segment)) => Figure::Known(
                    total(segment.books.free@) as usize,
                ),
                Some(Backing::Foreign(backend)) => if backend.callbacks.available_fn is Some {
                    Figure::AskBackend
                } else {
                    Figure::Known(0)
                },
                None => Figure::Known(0),
            },
        }),
{
    if !is_live(provider) {
        return Figure::Known(0);
    }
    match backing {
        Some(Backing::Native(segment)) => Figure::Known(segment.books.available()),
        Some(Backing::Foreign(backend)) => {
            if backend.callbacks.available_fn.is_some() {
                Figure::AskBackend
            } else {
                Figure::Known(0)
            }
        },
        None => Figure::Known(0),
    }
}

/// Reclaims released chunks and reports how many bytes that freed: none, as a
/// chunk is reclaimed when it is released.
pub fn z_shm_provider_garbage_collect<S>(provider: Option<&z_loaned_shm_provider_t<S>>) -> (freed:
    usize)
    ensures
        freed == 0,
{
    0
}

/// Whether `size` is the length of the largest free range of a segment, 0 where
/// nothing is free.
pub open spec fn is_largest(segment: &Segment, size: int) -> bool {
    &&& forall|i: int|
        0 <= i < segment.books.free@.len() ==> (#[trigger] segment.books.free@[i]).size() <= size
    &&& if segment.books.free@.len() == 0 {
        size == 0
    } else {
        exists|i: int|
            0 <= i < segment.books.free@.len() && (#[trigger] segment.books.free@[i]).size()
                == size
    }
}

/// Defragments and reports the largest range now available. A caller-supplied
/// allocator without a `defragment_fn` has none.
pub fn z_shm_provider_defragment<S>(
    provider: Option<&z_loaned_shm_provider_t<S>>,
    backing: Option<&Backing>,
) -> (figure: Figure)
    requires
        live(provider) matches Some(p) ==> (backing matches Some(b) && p.backed_by(b)),
    ensures
        match live(provider) {
            None => figure == Figure::Known(0),
            Some(_) => match backing {
                Some(Backing::Native(segment)) => figure matches Figure::Known(size) && is_largest(
                    &segment,
                    size as int,
                ),
                Some(Backing::Foreign(backend)) => figure == (
                if backend.callbacks.defragment_fn is Some {
                    Figure::AskBackend
                } else {
                    Figure::Known(0)
                }),
                None => true,
            },
        },
{
    if !is_live(provider) {
        return Figure::Known(0);
    }
    match backing {
        Some(Backing::Native(segment)) => Figure::Known(segment.books.largest()),
        Some(Backing::Foreign(backend)) => {
            if backend.callbacks.defragment_fn.is_some() {
                Figure::AskBackend
            } else {
                Figure::Known(0)
            }
        },
        None => Figure::Known(0),
    }
}

/// Borrows a provider.
pub fn z_shm_provider_loan<S>(this_: Option<&z_owned_shm_provider_t<S>>) -> (loaned: Option<
    &z_loaned_shm_provider_t<S>,
>)
    ensures
        loaned == this_,
{
    this_
}

/// Drops a provider's handle. Buffers and layouts made from it hold their own.
pub fn z_shm_provider_drop<S>(this_: Option<&mut z_moved_shm_provider_t<S>>)
    ensures
        this_ matches Some(moved) ==> final(moved)._this.state is None,
{
    let _ = take(this_);
}

/// Makes a provider the gravestone.
pub fn z_internal_shm_provider_null<S>(this_: Option<&mut z_owned_shm_provider_t<S>>)
    ensures
        this_ matches Some(slot) ==> final(slot).state is None,
{
    gravestone(this_)
}

/// Whether a provider is live.
pub fn z_internal_shm_provider_check<S>(this_: Option<&z_owned_shm_provider_t<S>>) -> (r: bool)
    ensures
        r == (live(this_) is Some),
{
    is_live(this_)
}

} // verus!
