//! Layouts bound to a provider: a request decided once and made many times.
//!
//! A bound layout was checked when it was built, so allocating through it can
//! fail to allocate but no longer fail to lay out, which is the outcome its
//! narrower result type drops. It holds its own handle on the provider's backing
//! and outlives the provider's handle. `alloc_layout` is the older name of the
//! same type.

use std::sync::Arc;

use vstd::prelude::*;

use crate::handle::gravestone;
use crate::handle::is_live;
use crate::handle::live;
use crate::handle::state_of;
use crate::handle::take;
use crate::handle::Moved;
use crate::handle::Owned;
use crate::result::ZResult;
use crate::result::Z_EINVAL;
use crate::result::Z_ENULL;
use crate::result::Z_OK;
use crate::shm::layout::align_byte;
use crate::shm::layout::alignment_fits;
use crate::shm::layout::byte_alignment;
use crate::shm::layout::layout_is_sound;
use crate::shm::layout::z_alloc_alignment_t;
use crate::shm::provider::attempted;
use crate::shm::provider::replied;
use crate::shm::provider::z_loaned_shm_provider_t;
use crate::shm::provider::z_owned_shm_mut_t;
use crate::shm::provider::AllocProgress;
use crate::shm::provider::Backing;
use crate::shm::provider::ChunkAllocResult;
use crate::shm::provider::ForeignBackend;
use crate::shm::provider::GiveBack;
use crate::shm::provider::Provider;
use crate::shm::provider::ProviderStep;
use crate::shm::segment::z_alloc_error_t;
use crate::shm::segment::Z_ALLOC_ERROR_OTHER;

verus! {

/// How an allocation through a bound layout ended.
pub type zc_buf_alloc_status_t = i32;

/// It was served.
pub const ZC_BUF_ALLOC_STATUS_OK: zc_buf_alloc_status_t = 0;

/// It failed to allocate.
pub const ZC_BUF_ALLOC_STATUS_ALLOC_ERROR: zc_buf_alloc_status_t = 1;

/// The outcome of an allocation through a bound layout.
pub struct z_buf_alloc_result_t<S> {
    /// Which of the two outcomes this is.
    pub status: zc_buf_alloc_status_t,
    /// The buffer, live where `status` says served.
    pub buf: z_owned_shm_mut_t<S>,
    /// Why it failed.
    pub error: z_alloc_error_t,
}

/// What a bound layout holds.
pub struct PrecomputedLayoutState<S> {
    pub provider: Provider<S>,
    pub size: usize,
    pub alignment: z_alloc_alignment_t,
}

/// An owned bound layout.
pub type z_owned_precomputed_layout_t<S> = Owned<PrecomputedLayoutState<S>>;

/// A borrowed bound layout: the same slot.
pub type z_loaned_precomputed_layout_t<S> = Owned<PrecomputedLayoutState<S>>;

/// A bound layout on its way to be consumed.
pub type z_moved_precomputed_layout_t<S> = Moved<PrecomputedLayoutState<S>>;

/// The older name of [`z_owned_precomputed_layout_t`].
pub type z_owned_alloc_layout_t<S> = z_owned_precomputed_layout_t<S>;

/// The older name of [`z_loaned_precomputed_layout_t`].
pub type z_loaned_alloc_layout_t<S> = z_loaned_precomputed_layout_t<S>;

/// The older name of [`z_moved_precomputed_layout_t`].
pub type z_moved_alloc_layout_t<S> = z_moved_precomputed_layout_t<S>;

/// What building a bound layout returns.
pub open spec fn precomputed_new_code<S>(
    provider: Option<Provider<S>>,
    size: usize,
    alignment: z_alloc_alignment_t,
) -> ZResult {
    if provider is None {
        Z_ENULL
    } else if layout_is_sound(size, alignment) {
        Z_OK
    } else {
        Z_EINVAL
    }
}

/// What building a bound layout leaves in its slot: the layout, where it was
/// accepted.
pub open spec fn precomputed_new_state<S>(
    provider: Option<Provider<S>>,
    size: usize,
    alignment: z_alloc_alignment_t,
) -> Option<PrecomputedLayoutState<S>> {
    if precomputed_new_code(provider, size, alignment) == Z_OK {
        Some(PrecomputedLayoutState { provider: provider->0, size, alignment })
    } else {
        None
    }
}

/// Builds a layout bound to a provider. One that no allocator could serve is
/// refused here, where the caller can still be told what was wrong.
pub fn precomputed_new<S>(
    this_: Option<&mut z_owned_precomputed_layout_t<S>>,
    provider: Option<&z_loaned_shm_provider_t<S>>,
    size: usize,
    alignment: z_alloc_alignment_t,
) -> (code: ZResult)
    ensures
        match this_ {
            None => code == Z_ENULL,
            Some(slot) => {
                &&& code == precomputed_new_code(live(provider), size, alignment)
                &&& final(slot).state == precomputed_new_state(live(provider), size, alignment)
            },
        },
{
    match this_ {
        None => Z_ENULL,
        Some(slot) => {
            slot.state = None;
            match state_of(provider) {
                None => Z_ENULL,
                Some(provider) => {
                    if size == 0 || !alignment_fits(alignment) {
                        return Z_EINVAL;
                    }
                    slot.state = Some(
                        PrecomputedLayoutState { provider: provider.share(), size, alignment },
                    );
                    Z_OK
                },
            }
        },
    }
}

/// The result that no outcome has been written into yet.
pub open spec fn narrow_failure<S>() -> z_buf_alloc_result_t<S> {
    z_buf_alloc_result_t {
        status: ZC_BUF_ALLOC_STATUS_ALLOC_ERROR,
        buf: Owned { state: None },
        error: Z_ALLOC_ERROR_OTHER,
    }
}

/// The result an attempt leaves.
pub open spec fn narrow_result_of<S>(step: ProviderStep<S>) -> z_buf_alloc_result_t<S> {
    match step {
        ProviderStep::Ready(chunk) => z_buf_alloc_result_t {
            status: ZC_BUF_ALLOC_STATUS_OK,
            buf: Owned { state: Some(chunk) },
            ..narrow_failure()
        },
        ProviderStep::Refused(reason) => z_buf_alloc_result_t {
            error: reason,
            ..narrow_failure()
        },
        ProviderStep::Wait => narrow_failure(),
        ProviderStep::Ask(_) => narrow_failure(),
    }
}

/// The attempt that left a result.
pub open spec fn narrow_step_of<S>(
    out: z_buf_alloc_result_t<S>,
    progress: AllocProgress,
) -> ProviderStep<S> {
    match progress {
        AllocProgress::Done => match out.buf.state {
            Some(chunk) => ProviderStep::Ready(chunk),
            None => ProviderStep::Refused(out.error),
        },
        AllocProgress::Wait => ProviderStep::Wait,
        AllocProgress::Ask(layout) => ProviderStep::Ask(layout),
    }
}

fn narrow<S>(out: &mut z_buf_alloc_result_t<S>, step: ProviderStep<S>) -> (progress: AllocProgress)
    ensures
        *final(out) == narrow_result_of(step),
        narrow_step_of(*final(out), progress) == step,
{
    out.status = ZC_BUF_ALLOC_STATUS_ALLOC_ERROR;
    out.buf = Owned::null_value();
    out.error = Z_ALLOC_ERROR_OTHER;
    match step {
        ProviderStep::Ready(chunk) => {
            out.status = ZC_BUF_ALLOC_STATUS_OK;
            out.buf = Owned::from_state(chunk);
            AllocProgress::Done
        },
        ProviderStep::Refused(reason) => {
            out.error = reason;
            AllocProgress::Done
        },
        ProviderStep::Wait => AllocProgress::Wait,
        ProviderStep::Ask(layout) => AllocProgress::Ask(layout),
    }
}

/// What an allocation through a bound layout does to the backing and writes as
/// its result.
pub open spec fn precomputed_alloc_outcome<S>(
    layout: Option<PrecomputedLayoutState<S>>,
    before: Backing,
    after: Backing,
    blocking: bool,
    out: z_buf_alloc_result_t<S>,
    progress: AllocProgress,
) -> bool {
    match layout {
        Some(layout) if layout.alignment.fits() => {
            let step = narrow_step_of(out, progress);
            &&& attempted(
                layout.provider,
                before,
                after,
                layout.size,
                layout.alignment,
                blocking,
                step,
            )
            &&& out == narrow_result_of(step)
        },
        _ => {
            &&& after == before
            &&& out == narrow_failure::<S>()
            &&& progress is Done
        },
    }
}

/// The shared body of every allocation through a bound layout.
pub fn precomputed_alloc<S>(
    out_result: Option<&mut z_buf_alloc_result_t<S>>,
    layout: Option<&z_loaned_precomputed_layout_t<S>>,
    backing: Option<&mut Backing>,
    blocking: bool,
) -> (progress: AllocProgress)
    requires
        live(layout) matches Some(l) ==> (backing matches Some(b) && l.provider.backed_by(b)),
    ensures
        match (out_result, backing) {
            (None, None) => progress is Done,
            (None, Some(b)) => progress is Done && *final(b) == *b,
            (Some(o), None) => progress is Done && *final(o) == narrow_failure::<S>(),
            (Some(o), Some(b)) => precomputed_alloc_outcome(
                live(layout),
                *b,
                *final(b),
                blocking,
                *final(o),
                progress,
            ),
        },
{
    let out = match out_result {
        Some(out) => out,
        None => {
            return AllocProgress::Done;
        },
    };
    out.status = ZC_BUF_ALLOC_STATUS_ALLOC_ERROR;
    out.buf = Owned::null_value();
    out.error = Z_ALLOC_ERROR_OTHER;
    match (state_of(layout), backing) {
        (Some(state), Some(backing)) => {
            if !alignment_fits(state.alignment) {
                return AllocProgress::Done;
            }
            let step = state.provider.attempt(backing, state.size, state.alignment, blocking);
            narrow(out, step)
        },
        _ => AllocProgress::Done,
    }
}

/// Ends an attempt that asked a caller-supplied allocator, given its report.
pub fn precomputed_alloc_reply<S>(
    out: &mut z_buf_alloc_result_t<S>,
    handle: &Arc<S>,
    backend: &mut ForeignBackend,
    size: usize,
    blocking: bool,
    reply: Option<ChunkAllocResult<S>>,
) -> (r: (AllocProgress, Option<GiveBack<S>>))
    requires
        old(backend).live < usize::MAX,
    ensures
        replied(
            *handle,
            *old(backend),
            *final(backend),
            size,
            blocking,
            reply,
            narrow_step_of(*final(out), r.0),
            r.1,
        ),
        *final(out) == narrow_result_of(narrow_step_of(*final(out), r.0)),
{
    let (step, give_back) = backend.settle(handle, size, blocking, reply);
    let progress = narrow(out, step);
    (progress, give_back)
}

/// Allocates through a bound layout, failing rather than waiting.
pub fn z_precomputed_layout_alloc<S>(
    out_result: Option<&mut z_buf_alloc_result_t<S>>,
    layout: Option<&z_loaned_precomputed_layout_t<S>>,
    backing: Option<&mut Backing>,
) -> (progress: AllocProgress)
    requires
        live(layout) matches Some(l) ==> (backing matches Some(b) && l.provider.backed_by(b)),
    ensures
        match (out_result, backing) {
            (None, None) => progress is Done,
            (None, Some(b)) => progress is Done && *final(b) == *b,
            (Some(o), None) => progress is Done && *final(o) == narrow_failure::<S>(),
            (Some(o), Some(b)) => precomputed_alloc_outcome(
                live(layout),
                *b,
                *final(b),
                false,
                *final(o),
                progress,
            ),
        },
{
    precomputed_alloc(out_result, layout, backing, false)
}

/// The older name of [`z_precomputed_layout_alloc`].
pub fn z_alloc_layout_alloc<S>(
    out_result: Option<&mut z_buf_alloc_result_t<S>>,
    layout: Option<&z_loaned_alloc_layout_t<S>>,
    backing: Option<&mut Backing>,
) -> (progress: AllocProgress)
    requires
        live(layout) matches Some(l) ==> (backing matches Some(b) && l.provider.backed_by(b)),
    ensures
        match (out_result, backing) {
            (None, None) => progress is Done,
            (None, Some(b)) => progress is Done && *final(b) == *b,
            (Some(o), None) => progress is Done && *final(o) == narrow_failure::<S>(),
            (Some(o), Some(b)) => precomputed_alloc_outcome(
                live(layout),
                *b,
                *final(b),
                false,
                *final(o),
                progress,
            ),
        },
{
    precomputed_alloc(out_result, layout, backing, false)
}

/// Allocates through a bound layout, reclaiming first.
pub fn z_precomputed_layout_alloc_gc<S>(
    out_result: Option<&mut z_buf_alloc_result_t<S>>,
    layout: Option<&z_loaned_precomputed_layout_t<S>>,
    backing: Option<&mut Backing>,
) -> (progress: AllocProgress)
    requires
        live(layout) matches Some(l) ==> (backing matches Some(b) && l.provider.backed_by(b)),
    ensures
        match (out_result, backing) {
            (None, None) => progress is Done,
            (None, Some(b)) => progress is Done && *final(b) == *b,
            (Some(o), None) => progress is Done && *final(o) == narrow_failure::<S>(),
            (Some(o), Some(b)) => precomputed_alloc_outcome(
                live(layout),
                *b,
                *final(b),
                false,
                *final(o),
                progress,
            ),
        },
{
    precomputed_alloc(out_result, layout, backing, false)
}

/// The older name of [`z_precomputed_layout_alloc_gc`].
pub fn z_alloc_layout_alloc_gc<S>(
    out_result: Option<&mut z_buf_alloc_result_t<S>>,
    layout: Option<&z_loaned_alloc_layout_t<S>>,
    backing: Option<&mut Backing>,
) -> (progress: AllocProgress)
    requires
        live(layout) matches Some(l) ==> (backing matches Some(b) && l.provider.backed_by(b)),
    ensures
        match (out_result, backing) {
            (None, None) => progress is Done,
            (None, Some(b)) => progress is Done && *final(b) == *b,
            (Some(o), None) => progress is Done && *final(o) == narrow_failure::<S>(),
            (Some(o), Some(b)) => precomputed_alloc_outcome(
                live(layout),
                *b,
                *final(b),
                false,
                *final(o),
                progress,
            ),
        },
{
    precomputed_alloc(out_result, layout, backing, false)
}

/// Allocates through a bound layout, reclaiming and defragmenting first.
pub fn z_precomputed_layout_alloc_gc_defrag<S>(
    out_result: Option<&mut z_buf_alloc_result_t<S>>,
    layout: Option<&z_loaned_precomputed_layout_t<S>>,
    backing: Option<&mut Backing>,
) -> (progress: AllocProgress)
    requires
        live(layout) matches Some(l) ==> (backing matches Some(b) && l.provider.backed_by(b)),
    ensures
        match (out_result, backing) {
            (None, None) => progress is Done,
            (None, Some(b)) => progress is Done && *final(b) == *b,
            (Some(o), None) => progress is Done && *final(o) == narrow_failure::<S>(),
            (Some(o), Some(b)) => precomputed_alloc_outcome(
                live(layout),
                *b,
                *final(b),
                false,
                *final(o),
                progress,
            ),
        },
{
    precomputed_alloc(out_result, layout, backing, false)
}

/// The older name of [`z_precomputed_layout_alloc_gc_defrag`].
pub fn z_alloc_layout_alloc_gc_defrag<S>(
    out_result: Option<&mut z_buf_alloc_result_t<S>>,
    layout: Option<&z_loaned_alloc_layout_t<S>>,
    backing: Option<&mut Backing>,
) -> (progress: AllocProgress)
    requires
        live(layout) matches Some(l) ==> (backing matches Some(b) && l.provider.backed_by(b)),
    ensures
        match (out_result, backing) {
            (None, None) => progress is Done,
            (None, Some(b)) => progress is Done && *final(b) == *b,
            (Some(o), None) => progress is Done && *final(o) == narrow_failure::<S>(),
            (Some(o), Some(b)) => precomputed_alloc_outcome(
                live(layout),
                *b,
                *final(b),
                false,
                *final(o),
                progress,
            ),
        },
{
    precomputed_alloc(out_result, layout, backing, false)
}

/// Allocates through a bound layout, waiting rather than failing.
pub fn z_precomputed_layout_alloc_gc_defrag_blocking<S>(
    out_result: Option<&mut z_buf_alloc_result_t<S>>,
    layout: Option<&z_loaned_precomputed_layout_t<S>>,
    backing: Option<&mut Backing>,
) -> (progress: AllocProgress)
    requires
        live(layout) matches Some(l) ==> (backing matches Some(b) && l.provider.backed_by(b)),
    ensures
        match (out_result, backing) {
            (None, None) => progress is Done,
            (None, Some(b)) => progress is Done && *final(b) == *b,
            (Some(o), None) => progress is Done && *final(o) == narrow_failure::<S>(),
            (Some(o), Some(b)) => precomputed_alloc_outcome(
                live(layout),
                *b,
                *final(b),
                true,
                *final(o),
                progress,
            ),
        },
{
    precomputed_alloc(out_result, layout, backing, true)
}

/// The older name of [`z_precomputed_layout_alloc_gc_defrag_blocking`].
pub fn z_alloc_layout_alloc_gc_defrag_blocking<S>(
    out_result: Option<&mut z_buf_alloc_result_t<S>>,
    layout: Option<&z_loaned_alloc_layout_t<S>>,
    backing: Option<&mut Backing>,
) -> (progress: AllocProgress)
    requires
        live(layout) matches Some(l) ==> (backing matches Some(b) && l.provider.backed_by(b)),
    ensures
        match (out_result, backing) {
            (None, None) => progress is Done,
            (None, Some(b)) => progress is Done && *final(b) == *b,
            (Some(o), None) => progress is Done && *final(o) == narrow_failure::<S>(),
            (Some(o), Some(b)) => precomputed_alloc_outcome(
                live(layout),
                *b,
                *final(b),
                true,
                *final(o),
                progress,
            ),
        },
{
    precomputed_alloc(out_result, layout, backing, true)
}

/// Allocates through a bound layout, reclaiming and defragmenting first. No live
/// chunk is taken from its owner for it.
pub fn z_precomputed_layout_alloc_gc_defrag_dealloc<S>(
    out_result: Option<&mut z_buf_alloc_result_t<S>>,
    layout: Option<&z_loaned_precomputed_layout_t<S>>,
    backing: Option<&mut Backing>,
) -> (progress: AllocProgress)
    requires
        live(layout) matches Some(l) ==> (backing matches Some(b) && l.provider.backed_by(b)),
    ensures
        match (out_result, backing) {
            (None, None) => progress is Done,
            (None, Some(b)) => progress is Done && *final(b) == *b,
            (Some(o), None) => progress is Done && *final(o) == narrow_failure::<S>(),
            (Some(o), Some(b)) => precomputed_alloc_outcome(
                live(layout),
                *b,
                *final(b),
                false,
                *final(o),
                progress,
            ),
        },
{
    precomputed_alloc(out_result, layout, backing, false)
}

/// The older name of [`z_precomputed_layout_alloc_gc_defrag_dealloc`].
pub fn z_alloc_layout_alloc_gc_defrag_dealloc<S>(
    out_result: Option<&mut z_buf_alloc_result_t<S>>,
    layout: Option<&z_loaned_alloc_layout_t<S>>,
    backing: Option<&mut Backing>,
) -> (progress: AllocProgress)
    requires
        live(layout) matches Some(l) ==> (backing matches Some(b) && l.provider.backed_by(b)),
    ensures
        match (out_result, backing) {
            (None, None) => progress is Done,
            (None, Some(b)) => progress is Done && *final(b) == *b,
            (Some(o), None) => progress is Done && *final(o) == narrow_failure::<S>(),
            (Some(o), Some(b)) => precomputed_alloc_outcome(
                live(layout),
                *b,
                *final(b),
                false,
                *final(o),
                progress,
            ),
        },
{
    precomputed_alloc(out_result, layout, backing, false)
}

/// Builds a bound layout at byte alignment.
pub fn z_alloc_layout_new<S>(
    this_: Option<&mut z_owned_alloc_layout_t<S>>,
    provider: Option<&z_loaned_shm_provider_t<S>>,
    size: usize,
) -> (code: ZResult)
    ensures
        match this_ {
            None => code == Z_ENULL,
            Some(slot) => {
                &&& code == precomputed_new_code(live(provider), size, byte_alignment())
                &&& final(slot).state == precomputed_new_state(live(provider), size, byte_alignment())
            },
        },
{
    precomputed_new(this_, provider, size, align_byte())
}

/// Builds a bound layout at the caller's alignment.
pub fn z_alloc_layout_with_alignment_new<S>(
    this_: Option<&mut z_owned_alloc_layout_t<S>>,
    provider: Option<&z_loaned_shm_provider_t<S>>,
    size: usize,
    alignment: z_alloc_alignment_t,
) -> (code: ZResult)
    ensures
        match this_ {
            None => code == Z_ENULL,
            Some(slot) => {
                &&& code == precomputed_new_code(live(provider), size, alignment)
                &&& final(slot).state == precomputed_new_state(live(provider), size, alignment)
            },
        },
{
    precomputed_new(this_, provider, size, alignment)
}

/// Builds a bound layout from a provider, at byte alignment.
pub fn z_shm_provider_alloc_layout<S>(
    this_: Option<&mut z_owned_precomputed_layout_t<S>>,
    provider: Option<&z_loaned_shm_provider_t<S>>,
    size: usize,
) -> (code: ZResult)
    ensures
        match this_ {
            None => code == Z_ENULL,
            Some(slot) => {
                &&& code == precomputed_new_code(live(provider), size, byte_alignment())
                &&& final(slot).state == precomputed_new_state(live(provider), size, byte_alignment())
            },
        },
{
    precomputed_new(this_, provider, size, align_byte())
}

/// Builds a bound layout from a provider, at the caller's alignment.
pub fn z_shm_provider_alloc_layout_aligned<S>(
    this_: Option<&mut z_owned_precomputed_layout_t<S>>,
    provider: Option<&z_loaned_shm_provider_t<S>>,
    size: usize,
    alignment: z_alloc_alignment_t,
) -> (code: ZResult)
    ensures
        match this_ {
            None => code == Z_ENULL,
            Some(slot) => {
                &&& code == precomputed_new_code(live(provider), size, alignment)
                &&& final(slot).state == precomputed_new_state(live(provider), size, alignment)
            },
        },
{
    precomputed_new(this_, provider, size, alignment)
}

/// Borrows a bound layout.
pub fn z_precomputed_layout_loan<S>(this_: Option<&z_owned_precomputed_layout_t<S>>) -> (loaned: Option<
    &z_loaned_precomputed_layout_t<S>,
>)
    ensures
        loaned == this_,
{
    this_
}

/// Frees a bound layout.
pub fn z_precomputed_layout_drop<S>(this_: Option<&mut z_moved_precomputed_layout_t<S>>)
    ensures
        this_ matches Some(moved) ==> final(moved)._this.state is None,
{
    let _ = take(this_);
}

/// Whether a bound layout is live.
pub fn z_internal_precomputed_layout_check<S>(this_: Option<&z_owned_precomputed_layout_t<S>>) -> (r: bool)
    ensures
        r == (live(this_) is Some),
{
    is_live(this_)
}

/// Makes a bound layout the gravestone.
pub fn z_internal_precomputed_layout_null<S>(this_: Option<&mut z_owned_precomputed_layout_t<S>>)
    ensures
        this_ matches Some(slot) ==> final(slot).state is None,
{
    gravestone(this_)
}

/// Borrows a bound layout, under its older name.
pub fn z_alloc_layout_loan<S>(this_: Option<&z_owned_alloc_layout_t<S>>) -> (loaned: Option<
    &z_loaned_alloc_layout_t<S>,
>)
    ensures
        loaned == this_,
{
    this_
}

/// Frees a bound layout, under its older name.
pub fn z_alloc_layout_drop<S>(this_: Option<&mut z_moved_alloc_layout_t<S>>)
    ensures
        this_ matches Some(moved) ==> final(moved)._this.state is None,
{
    let _ = take(this_);
}

/// Whether a bound layout, under its older name is live.
pub fn z_internal_alloc_layout_check<S>(this_: Option<&z_owned_alloc_layout_t<S>>) -> (r: bool)
    ensures
        r == (live(this_) is Some),
{
    is_live(this_)
}

/// Makes a bound layout, under its older name the gravestone.
pub fn z_internal_alloc_layout_null<S>(this_: Option<&mut z_owned_alloc_layout_t<S>>)
    ensures
        this_ matches Some(slot) ==> final(slot).state is None,
{
    gravestone(this_)
}

} // verus!
