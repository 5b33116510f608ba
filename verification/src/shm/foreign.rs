//! Caller-supplied allocators.
//!
//! A caller hands over an allocator as a set of callbacks and a context. What
//! the callbacks are asked and what becomes of their answers is decided here;
//! the calls themselves are made by whoever holds the callbacks. A context is
//! made shared by `mint` and deleted with the last handle on it, also where the
//! value it was meant for cannot be built.

use std::sync::Arc;

use vstd::prelude::*;

use crate::closure::DropCall;
use crate::closure::Invocation;
use crate::handle::gravestone;
use crate::handle::is_live;
use crate::handle::live;
use crate::handle::state_of;
use crate::handle::take;
use crate::handle::Moved;
use crate::handle::Owned;
use crate::result::ZResult;
use crate::result::Z_EINVAL;
use crate::result::Z_ENULL;
use crate::result::Z_OK;
use crate::shm::layout::align_byte;
use crate::shm::layout::byte_alignment;
use crate::shm::layout::z_alloc_alignment_t;
use crate::shm::precomputed::narrow_result_of;
use crate::shm::precomputed::narrow_step_of;
use crate::shm::precomputed::precomputed_alloc;
use crate::shm::precomputed::precomputed_alloc_outcome;
use crate::shm::precomputed::precomputed_alloc_reply;
use crate::shm::precomputed::z_buf_alloc_result_t;
use crate::shm::precomputed::z_loaned_alloc_layout_t;
use crate::shm::precomputed::z_loaned_precomputed_layout_t;
use crate::shm::precomputed::PrecomputedLayoutState;
use crate::shm::provider::provider_alloc;
use crate::shm::provider::provider_alloc_outcome;
use crate::shm::provider::provider_alloc_reply;
use crate::shm::provider::replied;
use crate::shm::provider::result_of;
use crate::shm::provider::step_of;
use crate::shm::provider::z_buf_layout_alloc_result_t;
use crate::shm::provider::z_chunk_descriptor_t;
use crate::shm::provider::z_loaned_shm_provider_t;
use crate::shm::provider::z_owned_shm_mut_t;
use crate::shm::provider::z_owned_shm_provider_t;
use crate::shm::provider::zc_shm_provider_backend_callbacks_t;
use crate::shm::provider::AllocProgress;
use crate::shm::provider::Backing;
use crate::shm::provider::ChunkAllocResult;
use crate::shm::provider::ChunkBacking;
use crate::shm::provider::ForeignBackend;
use crate::shm::provider::GiveBack;
use crate::shm::provider::Provider;
use crate::shm::provider::PtrInSegment;
use crate::shm::provider::ShmChunk;
use crate::shm::segment::z_alloc_error_t;

verus! {

/// A caller's state and the function that deletes it, for callbacks that may not
/// run concurrently.
#[derive(Clone, Copy, Debug, PartialEq, Eq, Structural)]
pub struct zc_context_t {
    /// The caller's state, handed back to every callback.
    pub context: usize,
    /// Run once, when the last holder of the context is gone.
    pub delete_fn: Option<usize>,
}

/// The state of a [`zc_threadsafe_context_t`].
#[derive(Clone, Copy, Debug, PartialEq, Eq, Structural)]
pub struct zc_threadsafe_context_data_t {
    /// The caller's state.
    pub ptr: usize,
}

/// A caller's state and the function that deletes it, for callbacks that the
/// caller promises may run concurrently.
#[derive(Clone, Copy, Debug, PartialEq, Eq, Structural)]
pub struct zc_threadsafe_context_t {
    /// The caller's state.
    pub context: zc_threadsafe_context_data_t,
    /// Run once, when the last holder of the context is gone.
    pub delete_fn: Option<usize>,
}

/// A caller's state and the deletion owed to it, whichever promise came with it.
#[derive(Clone, Copy, Debug, PartialEq, Eq, Structural)]
pub struct DroppableContext {
    pub ptr: usize,
    pub delete_fn: Option<usize>,
}

impl DroppableContext {
    /// The call that deleting the context makes.
    pub open spec fn deletion(self) -> Option<DropCall> {
        match self.delete_fn {
            Some(delete) => Some(DropCall { drop: delete, context: self.ptr }),
            None => None,
        }
    }

    /// The call due when the context is deleted.
    pub fn deleting(&self) -> (due: Option<DropCall>)
        ensures
            due == self.deletion(),
    {
        match self.delete_fn {
            Some(delete) => Some(DropCall { drop: delete, context: self.ptr }),
            None => None,
        }
    }
}

/// What a threadsafe context holds.
pub open spec fn held_context(context: zc_threadsafe_context_t) -> DroppableContext {
    DroppableContext { ptr: context.context.ptr, delete_fn: context.delete_fn }
}

/// An owned pointer into a segment.
pub type z_owned_ptr_in_segment_t<S> = Owned<PtrInSegment<S>>;

/// A borrowed pointer into a segment: the same slot.
pub type z_loaned_ptr_in_segment_t<S> = Owned<PtrInSegment<S>>;

/// A pointer into a segment on its way to be consumed.
pub type z_moved_ptr_in_segment_t<S> = Moved<PtrInSegment<S>>;

/// An owned report of an allocation.
pub type z_owned_chunk_alloc_result_t<S> = Owned<ChunkAllocResult<S>>;

/// A report of an allocation on its way to be consumed.
pub type z_moved_chunk_alloc_result_t<S> = Moved<ChunkAllocResult<S>>;

/// A chunk that a caller-supplied allocator made.
pub struct z_allocated_chunk_t<'a, S> {
    /// How the allocator names the chunk.
    pub descriptpr: z_chunk_descriptor_t,
    /// The chunk's pointer, moved: taking the chunk leaves a gravestone.
    pub ptr: Option<&'a mut z_moved_ptr_in_segment_t<S>>,
}

impl<S> PtrInSegment<S> {
    /// The same address, and one more holder of what keeps it valid.
    pub fn shallow_clone(&self) -> (copy: PtrInSegment<S>)
        ensures
            copy == *self,
    {
        PtrInSegment { ptr: self.ptr, _segment: self._segment.clone() }
    }
}

/// Constructs a pointer into a segment. The context is consumed in any case.
pub fn z_ptr_in_segment_new<S, M: FnOnce(DroppableContext) -> S>(
    this_: Option<&mut z_owned_ptr_in_segment_t<S>>,
    ptr: usize,
    segment: zc_threadsafe_context_t,
    mint: M,
)
    requires
        call_requires(
            mint,
            (DroppableContext { ptr: segment.context.ptr, delete_fn: segment.delete_fn },),
        ),
    ensures
        match this_ {
            Some(slot) => final(slot).state matches Some(state) && state.ptr == ptr
                && call_ensures(
                mint,
                (DroppableContext { ptr: segment.context.ptr, delete_fn: segment.delete_fn },),
                *state._segment,
            ),
            None => exists|shared: S| #[trigger]
                call_ensures(
                    mint,
                    (DroppableContext { ptr: segment.context.ptr, delete_fn: segment.delete_fn },),
                    shared,
                ),
        },
{
    let shared = Arc::new(
        mint(DroppableContext { ptr: segment.context.ptr, delete_fn: segment.delete_fn }),
    );
    if let Some(slot) = this_ {
        slot.state = Some(PtrInSegment { ptr, _segment: shared });
    }
}

/// Makes a pointer into a segment the gravestone.
pub fn z_internal_ptr_in_segment_null<S>(this_: Option<&mut z_owned_ptr_in_segment_t<S>>)
    ensures
        this_ matches Some(slot) ==> final(slot).state is None,
{
    gravestone(this_)
}

/// Whether a pointer into a segment is live.
pub fn z_internal_ptr_in_segment_check<S>(this_: Option<&z_owned_ptr_in_segment_t<S>>) -> (r: bool)
    ensures
        r == (live(this_) is Some),
{
    is_live(this_)
}

/// Borrows a pointer into a segment.
pub fn z_ptr_in_segment_loan<S>(this_: Option<&z_owned_ptr_in_segment_t<S>>) -> (loaned: Option<
    &z_loaned_ptr_in_segment_t<S>,
>)
    ensures
        loaned == this_,
{
    this_
}

/// Copies a pointer into a segment: the same address and one more holder, so
/// that the context is deleted once however many copies there were.
pub fn z_ptr_in_segment_clone<S>(
    out: Option<&mut z_owned_ptr_in_segment_t<S>>,
    this_: Option<&z_loaned_ptr_in_segment_t<S>>,
)
    ensures
        out matches Some(slot) ==> final(slot).state == live(this_),
{
    if let Some(slot) = out {
        slot.state = match state_of(this_) {
            Some(source) => Some(source.shallow_clone()),
            None => None,
        };
    }
}

/// Drops a pointer into a segment.
pub fn z_ptr_in_segment_drop<S>(this_: Option<&mut z_moved_ptr_in_segment_t<S>>)
    ensures
        this_ matches Some(moved) ==> final(moved)._this.state is None,
{
    let _ = take(this_);
}

/// Takes the pointer out of a moved slot, leaving the gravestone.
pub fn take_ptr_in_segment<S>(this_: Option<&mut z_moved_ptr_in_segment_t<S>>) -> (ptr: Option<
    PtrInSegment<S>,
>)
    ensures
        match this_ {
            Some(moved) => ptr == moved._this.state && final(moved)._this.state is None,
            None => ptr is None,
        },
{
    take(this_)
}

/// The pointer an allocated chunk carries.
pub open spec fn carried<S>(allocated: z_allocated_chunk_t<S>) -> Option<PtrInSegment<S>> {
    match allocated.ptr {
        Some(moved) => moved._this.state,
        None => None,
    }
}

/// Reports a successful allocation. The chunk's pointer is consumed; a chunk
/// without one is refused.
pub fn z_chunk_alloc_result_new_ok<S>(
    this_: Option<&mut z_owned_chunk_alloc_result_t<S>>,
    allocated_chunk: z_allocated_chunk_t<S>,
) -> (code: ZResult)
    ensures
        allocated_chunk.ptr matches Some(moved) ==> final(moved)._this.state is None,
        code == (if carried(allocated_chunk) is None {
            Z_EINVAL
        } else if this_ is None {
            Z_ENULL
        } else {
            Z_OK
        }),
        this_ matches Some(slot) ==> final(slot).state == (match carried(allocated_chunk) {
            Some(ptr) => Some(
                ChunkAllocResult::Allocated { descriptor: allocated_chunk.descriptpr, ptr },
            ),
            None => None,
        }),
{
    match take_ptr_in_segment(allocated_chunk.ptr) {
        None => {
            if let Some(slot) = this_ {
                slot.state = None;
            }
            Z_EINVAL
        },
        Some(ptr) => match this_ {
            None => Z_ENULL,
            Some(slot) => {
                slot.state = Some(
                    ChunkAllocResult::Allocated { descriptor: allocated_chunk.descriptpr, ptr },
                );
                Z_OK
            },
        },
    }
}

/// Reports a failed allocation.
pub fn z_chunk_alloc_result_new_error<S>(
    this_: Option<&mut z_owned_chunk_alloc_result_t<S>>,
    alloc_error: z_alloc_error_t,
)
    ensures
        this_ matches Some(slot) ==> final(slot).state == Some(
            ChunkAllocResult::<S>::Failed(alloc_error),
        ),
{
    if let Some(slot) = this_ {
        slot.state = Some(ChunkAllocResult::Failed(alloc_error));
    }
}

/// Makes a report the gravestone.
pub fn z_internal_chunk_alloc_result_null<S>(this_: Option<&mut z_owned_chunk_alloc_result_t<S>>)
    ensures
        this_ matches Some(slot) ==> final(slot).state is None,
{
    gravestone(this_)
}

/// Whether a report holds an outcome.
pub fn z_internal_chunk_alloc_result_check<S>(this_: Option<&z_owned_chunk_alloc_result_t<S>>) -> (r:
    bool)
    ensures
        r == (live(this_) is Some),
{
    is_live(this_)
}

/// Drops a report. A chunk in it was never handed to a provider, so it is not
/// given back; its pointer goes, and with the last holder its context.
pub fn z_chunk_alloc_result_drop<S>(this_: Option<&mut z_moved_chunk_alloc_result_t<S>>)
    ensures
        this_ matches Some(moved) ==> final(moved)._this.state is None,
{
    let _ = take(this_);
}

/// The books a new caller-supplied allocator starts with.
pub open spec fn new_backend(
    callbacks: zc_shm_provider_backend_callbacks_t,
    threadsafe: bool,
) -> ForeignBackend {
    ForeignBackend { callbacks, threadsafe, live: 0 }
}

/// The shared body of the two constructors of a caller-supplied allocator. The
/// context is consumed in any case.
pub fn foreign_provider_new<S, M: FnOnce(Backing, DroppableContext) -> S>(
    this_: Option<&mut z_owned_shm_provider_t<S>>,
    context: DroppableContext,
    callbacks: zc_shm_provider_backend_callbacks_t,
    threadsafe: bool,
    mint: M,
)
    requires
        call_requires(
            mint,
            (
                Backing::Foreign(new_backend(callbacks, threadsafe)),
                context,
            ),
        ),
    ensures
        match this_ {
            Some(slot) => final(slot).state matches Some(Provider::Foreign(handle)) && call_ensures(
                mint,
                (
                    Backing::Foreign(new_backend(callbacks, threadsafe)),
                    context,
                ),
                *handle,
            ),
            None => exists|shared: S| #[trigger]
                call_ensures(
                    mint,
                    (
                        Backing::Foreign(new_backend(callbacks, threadsafe)),
                        context,
                    ),
                    shared,
                ),
        },
{
    let shared = Arc::new(
        mint(Backing::Foreign(ForeignBackend { callbacks, threadsafe, live: 0 }), context),
    );
    if let Some(slot) = this_ {
        slot.state = Some(Provider::Foreign(shared));
    }
}

/// Installs a caller-supplied allocator whose callbacks may not run
/// concurrently.
pub fn z_shm_provider_new<S, M: FnOnce(Backing, DroppableContext) -> S>(
    this_: Option<&mut z_owned_shm_provider_t<S>>,
    context: zc_context_t,
    callbacks: zc_shm_provider_backend_callbacks_t,
    mint: M,
)
    requires
        call_requires(
            mint,
            (
                Backing::Foreign(new_backend(callbacks, false)),
                DroppableContext { ptr: context.context, delete_fn: context.delete_fn },
            ),
        ),
    ensures
        match this_ {
            Some(slot) => final(slot).state matches Some(Provider::Foreign(handle)) && call_ensures(
                mint,
                (
                    Backing::Foreign(new_backend(callbacks, false)),
                    DroppableContext { ptr: context.context, delete_fn: context.delete_fn },
                ),
                *handle,
            ),
            None => exists|shared: S| #[trigger]
                call_ensures(
                    mint,
                    (
                        Backing::Foreign(new_backend(callbacks, false)),
                        DroppableContext { ptr: context.context, delete_fn: context.delete_fn },
                    ),
                    shared,
                ),
        },
{
    foreign_provider_new(
        this_,
        DroppableContext { ptr: context.context, delete_fn: context.delete_fn },
        callbacks,
        false,
        mint,
    )
}

/// Installs a caller-supplied allocator whose callbacks the caller promises may
/// run concurrently.
pub fn z_shm_provider_threadsafe_new<S, M: FnOnce(Backing, DroppableContext) -> S>(
    this_: Option<&mut z_owned_shm_provider_t<S>>,
    context: zc_threadsafe_context_t,
    callbacks: zc_shm_provider_backend_callbacks_t,
    mint: M,
)
    requires
        call_requires(
            mint,
            (
                Backing::Foreign(new_backend(callbacks, true)),
                DroppableContext { ptr: context.context.ptr, delete_fn: context.delete_fn },
            ),
        ),
    ensures
        match this_ {
            Some(slot) => final(slot).state matches Some(Provider::Foreign(handle)) && call_ensures(
                mint,
                (
                    Backing::Foreign(new_backend(callbacks, true)),
                    DroppableContext { ptr: context.context.ptr, delete_fn: context.delete_fn },
                ),
                *handle,
            ),
            None => exists|shared: S| #[trigger]
                call_ensures(
                    mint,
                    (
                        Backing::Foreign(new_backend(callbacks, true)),
                        DroppableContext { ptr: context.context.ptr, delete_fn: context.delete_fn },
                    ),
                    shared,
                ),
        },
{
    foreign_provider_new(
        this_,
        DroppableContext { ptr: context.context.ptr, delete_fn: context.delete_fn },
        callbacks,
        true,
        mint,
    )
}

/// What adopting a chunk of a caller-supplied allocator returns.
pub open spec fn map_code<S>(
    out_is_null: bool,
    provider: Option<Provider<S>>,
    descriptor: z_chunk_descriptor_t,
    ptr: Option<PtrInSegment<S>>,
    len: usize,
) -> ZResult {
    match ptr {
        None => Z_EINVAL,
        Some(ptr) => if out_is_null {
            Z_ENULL
        } else if !(provider matches Some(Provider::Foreign(_))) {
            Z_EINVAL
        } else if ptr.ptr == 0 || len > descriptor.len {
            Z_EINVAL
        } else {
            Z_OK
        },
    }
}

/// Adopts a chunk that a provider's own caller-supplied allocator made. Its
/// pointer is consumed in any case. A provider on a segment refuses: it never
/// issued such a chunk.
pub fn z_shm_provider_map<S>(
    out_result: Option<&mut z_owned_shm_mut_t<S>>,
    provider: Option<&z_loaned_shm_provider_t<S>>,
    backing: Option<&mut Backing>,
    allocated_chunk: z_allocated_chunk_t<S>,
    len: usize,
) -> (code: ZResult)
    requires
        live(provider) matches Some(p) ==> (backing matches Some(b) && p.backed_by(b)),
        backing matches Some(b) ==> (*b matches Backing::Foreign(backend) ==> backend.live
            < usize::MAX),
    ensures
        allocated_chunk.ptr matches Some(moved) ==> final(moved)._this.state is None,
        code == map_code(
            out_result is None,
            live(provider),
            allocated_chunk.descriptpr,
            carried(allocated_chunk),
            len,
        ),
        out_result matches Some(slot) ==> final(slot).state == (if code == Z_OK {
            Some(
                ShmChunk {
                    backing: ChunkBacking::Foreign {
                        backend: live(provider)->0->Foreign_0,
                        descriptor: allocated_chunk.descriptpr,
                        ptr: carried(allocated_chunk)->0,
                    },
                    len,
                    mutable: true,
                },
            )
        } else {
            None
        }),
        backing matches Some(b) ==> *final(b) == (if code == Z_OK {
            Backing::Foreign(b->Foreign_0.with_one())
        } else {
            *b
        }),
{
    let ptr = take_ptr_in_segment(allocated_chunk.ptr);
    let slot = match out_result {
        Some(slot) => {
            slot.state = None;
            slot
        },
        None => {
            return match ptr {
                None => Z_EINVAL,
                Some(_) => Z_ENULL,
            };
        },
    };
    let ptr = match ptr {
        None => {
            return Z_EINVAL;
        },
        Some(ptr) => ptr,
    };
    match (state_of(provider), backing) {
        (Some(Provider::Foreign(handle)), Some(Backing::Foreign(backend))) => {
            let descriptor = allocated_chunk.descriptpr;
            if ptr.ptr == 0 || len > descriptor.len {
                return Z_EINVAL;
            }
            backend.live = backend.live + 1;
            slot.state = Some(
                ShmChunk {
                    backing: ChunkBacking::Foreign { backend: handle.clone(), descriptor, ptr },
                    len,
                    mutable: true,
                },
            );
            Z_OK
        },
        _ => Z_EINVAL,
    }
}

/// An allocation to be made on another thread. It holds its own handle on the
/// provider's backing, so the caller may drop the provider meanwhile. It holds the
/// caller's context until the result was handed over.
pub struct AsyncJob<S> {
    pub provider: Provider<S>,
    pub size: usize,
    pub alignment: z_alloc_alignment_t,
    pub context: DroppableContext,
    /// Called with the context and the result.
    pub callback: usize,
}

/// What asking for an allocation on another thread came to.
pub struct AsyncStart<S> {
    pub code: ZResult,
    /// The allocation to be made.
    pub job: Option<AsyncJob<S>>,
    /// The deletion of the context, where there is no allocation to be made.
    pub due: Option<DropCall>,
}

/// What ends an allocation on another thread, in this order.
pub struct AsyncEnd {
    /// The call that hands the result over.
    pub call: Invocation,
    /// The deletion of the context.
    pub due: Option<DropCall>,
}

/// What asking for an allocation on another thread returns: the threadsafe
/// promise is what it takes.
pub open spec fn async_code<S>(
    out_is_null: bool,
    callback: Option<usize>,
    provider: Option<Provider<S>>,
    backing: Option<&Backing>,
) -> ZResult {
    if out_is_null || callback is None {
        Z_ENULL
    } else if provider is None {
        Z_ENULL
    } else if backing matches Some(b) && b.threadsafe() {
        Z_OK
    } else {
        Z_EINVAL
    }
}

/// What asking for an allocation on another thread comes to. The context is
/// consumed on every path: a job takes it over, and where there is none its
/// deletion is due.
pub open spec fn started<S>(
    out_is_null: bool,
    provider: Option<Provider<S>>,
    backing: Option<&Backing>,
    size: usize,
    alignment: z_alloc_alignment_t,
    context: DroppableContext,
    callback: Option<usize>,
    r: AsyncStart<S>,
) -> bool {
    &&& r.code == async_code(out_is_null, callback, provider, backing)
    &&& if r.code == Z_OK {
        &&& r.job == Some(
            AsyncJob {
                provider: provider->0,
                size,
                alignment,
                context,
                callback: callback->0,
            },
        )
        &&& r.due is None
    } else {
        &&& r.job is None
        &&& r.due == context.deletion()
    }
}

/// Whether `end` ends a job: the callback gets the context, and the context is
/// deleted after it.
pub open spec fn ended<S>(job: AsyncJob<S>, end: AsyncEnd) -> bool {
    &&& end.call == (Invocation { call: job.callback, context: job.context.ptr })
    &&& end.due == job.context.deletion()
}

/// The context of an allocation on another thread is deleted exactly once: at once
/// where the request is refused, and then no callback runs; after the callback
/// where it is not.
pub proof fn lemma_a_context_is_deleted_once<S>(
    out_is_null: bool,
    provider: Option<Provider<S>>,
    backing: Option<&Backing>,
    size: usize,
    alignment: z_alloc_alignment_t,
    context: DroppableContext,
    callback: Option<usize>,
    r: AsyncStart<S>,
    end: AsyncEnd,
)
    requires
        started(out_is_null, provider, backing, size, alignment, context, callback, r),
        r.job matches Some(job) ==> ended(job, end),
    ensures
        r.code != Z_OK ==> r.job is None && r.due == context.deletion(),
        r.code == Z_OK ==> {
            &&& r.job is Some
            &&& r.due is None
            &&& end.due == context.deletion()
            &&& Some(end.call.call) == callback
            &&& end.call.context == context.ptr
        },
{
}

fn start_job<S>(
    out_is_null: bool,
    provider: Option<&Provider<S>>,
    backing: Option<&Backing>,
    size: usize,
    alignment: z_alloc_alignment_t,
    context: zc_threadsafe_context_t,
    result_callback: Option<usize>,
) -> (r: AsyncStart<S>)
    requires
        provider matches Some(p) ==> (backing matches Some(b) && p.backed_by(b)),
    ensures
        started(
            out_is_null,
            match provider {
                Some(p) => Some(*p),
                None => None,
            },
            backing,
            size,
            alignment,
            held_context(context),
            result_callback,
            r,
        ),
{
    let context = DroppableContext { ptr: context.context.ptr, delete_fn: context.delete_fn };
    let callback: usize = match result_callback {
        Some(callback) if !out_is_null => callback,
        _ => {
            return AsyncStart { code: Z_ENULL, job: None, due: context.deleting() };
        },
    };
    match (provider, backing) {
        (None, _) => AsyncStart { code: Z_ENULL, job: None, due: context.deleting() },
        (Some(provider), Some(backing)) if provider.is_threadsafe(backing) => {
            let job = AsyncJob { provider: provider.share(), size, alignment, context, callback };
            AsyncStart { code: Z_OK, job: Some(job), due: None }
        },
        _ => AsyncStart { code: Z_EINVAL, job: None, due: context.deleting() },
    }
}

/// The shared body of the two allocations of a provider on another thread.
pub fn provider_alloc_async<S>(
    out_result: Option<&z_buf_layout_alloc_result_t<S>>,
    provider: Option<&z_loaned_shm_provider_t<S>>,
    backing: Option<&Backing>,
    size: usize,
    alignment: z_alloc_alignment_t,
    result_context: zc_threadsafe_context_t,
    result_callback: Option<usize>,
) -> (r: AsyncStart<S>)
    requires
        live(provider) matches Some(p) ==> (backing matches Some(b) && p.backed_by(b)),
    ensures
        started(
            out_result is None,
            live(provider),
            backing,
            size,
            alignment,
            held_context(result_context),
            result_callback,
            r,
        ),
{
    start_job(
        out_result.is_none(),
        state_of(provider),
        backing,
        size,
        alignment,
        result_context,
        result_callback,
    )
}

impl<S> AsyncJob<S> {
    /// Makes one attempt at the allocation. It waits rather than fails.
    pub fn attempt(
        &self,
        out: &mut z_buf_layout_alloc_result_t<S>,
        backing: &mut Backing,
    ) -> (progress: AllocProgress)
        requires
            self.provider.backed_by(old(backing)),
        ensures
            provider_alloc_outcome(
                Some(self.provider),
                *old(backing),
                *final(backing),
                self.size,
                self.alignment,
                true,
                *final(out),
                progress,
            ),
    {
        let slot = Owned { state: Some(self.provider.share()) };
        provider_alloc(Some(out), Some(&slot), Some(backing), self.size, self.alignment, true)
    }

    /// Makes one attempt at the allocation for a bound layout.
    pub fn attempt_bound(
        &self,
        out: &mut z_buf_alloc_result_t<S>,
        backing: &mut Backing,
    ) -> (progress: AllocProgress)
        requires
            self.provider.backed_by(old(backing)),
        ensures
            precomputed_alloc_outcome(
                Some(
                    PrecomputedLayoutState {
                        provider: self.provider,
                        size: self.size,
                        alignment: self.alignment,
                    },
                ),
                *old(backing),
                *final(backing),
                true,
                *final(out),
                progress,
            ),
    {
        let slot = Owned {
            state: Some(
                PrecomputedLayoutState {
                    provider: self.provider.share(),
                    size: self.size,
                    alignment: self.alignment,
                },
            ),
        };
        precomputed_alloc(Some(out), Some(&slot), Some(backing), true)
    }

    /// Ends an attempt that asked a caller-supplied allocator, given its report. A
    /// job that was turned down waits where a chunk is outstanding.
    pub fn reply(
        &self,
        out: &mut z_buf_layout_alloc_result_t<S>,
        backend: &mut ForeignBackend,
        reply: Option<ChunkAllocResult<S>>,
    ) -> (r: (AllocProgress, Option<GiveBack<S>>))
        requires
            self.provider is Foreign,
            old(backend).live < usize::MAX,
        ensures
            replied(
                self.provider.handle(),
                *old(backend),
                *final(backend),
                self.size,
                true,
                reply,
                step_of(*final(out), r.0),
                r.1,
            ),
            *final(out) == result_of(step_of(*final(out), r.0)),
    {
        provider_alloc_reply(out, self.provider.held(), backend, self.size, true, reply)
    }

    /// Ends an attempt for a bound layout that asked a caller-supplied allocator,
    /// given its report.
    pub fn reply_bound(
        &self,
        out: &mut z_buf_alloc_result_t<S>,
        backend: &mut ForeignBackend,
        reply: Option<ChunkAllocResult<S>>,
    ) -> (r: (AllocProgress, Option<GiveBack<S>>))
        requires
            self.provider is Foreign,
            old(backend).live < usize::MAX,
        ensures
            replied(
                self.provider.handle(),
                *old(backend),
                *final(backend),
                self.size,
                true,
                reply,
                narrow_step_of(*final(out), r.0),
                r.1,
            ),
            *final(out) == narrow_result_of(narrow_step_of(*final(out), r.0)),
    {
        precomputed_alloc_reply(out, self.provider.held(), backend, self.size, true, reply)
    }
    /// Ends the job, once its result is there: the call that hands the result
    /// over, and the deletion of the context, which is due after it.
    pub fn finish(self) -> (end: AsyncEnd)
        ensures
            ended(self, end),
    {
        AsyncEnd {
            call: Invocation { call: self.callback, context: self.context.ptr },
            due: self.context.deleting(),
        }
    }
}

/// Asks for an allocation on another thread. The context is consumed.
pub fn z_shm_provider_alloc_gc_defrag_async<S>(
    out_result: Option<&z_buf_layout_alloc_result_t<S>>,
    provider: Option<&z_loaned_shm_provider_t<S>>,
    backing: Option<&Backing>,
    size: usize,
    result_context: zc_threadsafe_context_t,
    result_callback: Option<usize>,
) -> (r: AsyncStart<S>)
    requires
        live(provider) matches Some(p) ==> (backing matches Some(b) && p.backed_by(b)),
    ensures
        started(
            out_result is None,
            live(provider),
            backing,
            size,
            byte_alignment(),
            held_context(result_context),
            result_callback,
            r,
        ),
{
    provider_alloc_async(
        out_result,
        provider,
        backing,
        size,
        align_byte(),
        result_context,
        result_callback,
    )
}

/// Asks for an aligned allocation on another thread. The context is consumed.
pub fn z_shm_provider_alloc_gc_defrag_aligned_async<S>(
    out_result: Option<&z_buf_layout_alloc_result_t<S>>,
    provider: Option<&z_loaned_shm_provider_t<S>>,
    backing: Option<&Backing>,
    size: usize,
    alignment: z_alloc_alignment_t,
    result_context: zc_threadsafe_context_t,
    result_callback: Option<usize>,
) -> (r: AsyncStart<S>)
    requires
        live(provider) matches Some(p) ==> (backing matches Some(b) && p.backed_by(b)),
    ensures
        started(
            out_result is None,
            live(provider),
            backing,
            size,
            alignment,
            held_context(result_context),
            result_callback,
            r,
        ),
{
    provider_alloc_async(
        out_result,
        provider,
        backing,
        size,
        alignment,
        result_context,
        result_callback,
    )
}

/// What asking for an allocation through a bound layout on another thread comes
/// to.
pub open spec fn bound_started<S>(
    out_is_null: bool,
    layout: Option<PrecomputedLayoutState<S>>,
    backing: Option<&Backing>,
    context: DroppableContext,
    callback: Option<usize>,
    r: AsyncStart<S>,
) -> bool {
    match layout {
        Some(layout) => started(
            out_is_null,
            Some(layout.provider),
            backing,
            layout.size,
            layout.alignment,
            context,
            callback,
            r,
        ),
        None => r.code == Z_ENULL && r.job is None && r.due == context.deletion(),
    }
}

/// Asks for an allocation through a bound layout on another thread. The layout
/// carries the provider, so it carries the threadsafe promise too. The context is
/// consumed.
pub fn z_precomputed_layout_threadsafe_alloc_gc_defrag_async<S>(
    out_result: Option<&z_buf_alloc_result_t<S>>,
    layout: Option<&z_loaned_precomputed_layout_t<S>>,
    backing: Option<&Backing>,
    result_context: zc_threadsafe_context_t,
    result_callback: Option<usize>,
) -> (r: AsyncStart<S>)
    requires
        live(layout) matches Some(l) ==> (backing matches Some(b) && l.provider.backed_by(b)),
    ensures
        bound_started(
            out_result is None,
            live(layout),
            backing,
            held_context(result_context),
            result_callback,
            r,
        ),
{
    match state_of(layout) {
        None => start_job(true, None, backing, 0, align_byte(), result_context, result_callback),
        Some(state) => start_job(
            out_result.is_none(),
            Some(&state.provider),
            backing,
            state.size,
            state.alignment,
            result_context,
            result_callback,
        ),
    }
}

/// The older name of [`z_precomputed_layout_threadsafe_alloc_gc_defrag_async`].
pub fn z_alloc_layout_threadsafe_alloc_gc_defrag_async<S>(
    out_result: Option<&z_buf_alloc_result_t<S>>,
    layout: Option<&z_loaned_alloc_layout_t<S>>,
    backing: Option<&Backing>,
    result_context: zc_threadsafe_context_t,
    result_callback: Option<usize>,
) -> (r: AsyncStart<S>)
    requires
        live(layout) matches Some(l) ==> (backing matches Some(b) && l.provider.backed_by(b)),
    ensures
        bound_started(
            out_result is None,
            live(layout),
            backing,
            held_context(result_context),
            result_callback,
            r,
        ),
{
    z_precomputed_layout_threadsafe_alloc_gc_defrag_async(
        out_result,
        layout,
        backing,
        result_context,
        result_callback,
    )
}

} // verus!
