//! Buffers: chunks in the hands of a caller.
//!
//! A chunk is handed out mutable. Freezing it into an immutable buffer moves no
//! byte; it only ends mutable access. Dropping either returns the chunk to
//! whoever issued it: a range of a segment goes back to the segment's books, a
//! chunk of a caller-supplied allocator has to be given back through its
//! callback.

use std::sync::Arc;

use vstd::prelude::*;

use crate::bytes::copy_bytes;
use crate::bytes::z_loaned_bytes_t;
use crate::bytes::z_owned_bytes_t;
use crate::bytes::BytesState;
use crate::handle::gravestone;
use crate::handle::is_live;
use crate::handle::live;
use crate::handle::state_of;
use crate::handle::take;
use crate::handle::Moved;
use crate::handle::Owned;
use crate::result::ZResult;
use crate::result::Z_EINVAL;
use crate::result::Z_ENULL;
use crate::result::Z_OK;
use crate::shm::layout::align_byte;
use crate::shm::layout::byte_alignment;
use crate::shm::layout::MemoryLayoutState;
use crate::shm::provider::z_loaned_shm_mut_t;
use crate::shm::provider::z_moved_shm_mut_t;
use crate::shm::provider::z_owned_shm_mut_t;
use crate::shm::provider::Backing;
use crate::shm::provider::ChunkAllocResult;
use crate::shm::provider::ChunkBacking;
use crate::shm::provider::ForeignBackend;
use crate::shm::provider::GiveBack;
use crate::shm::provider::Provider;
use crate::shm::provider::ProviderStep;
use crate::shm::provider::ShmChunk;
use crate::shm::segment::can_serve;
use crate::shm::segment::released;
use crate::shm::segment::served;
use crate::shm::segment::Segment;

verus! {

/// An owned immutable buffer.
pub type z_owned_shm_t<S> = Owned<ShmChunk<S>>;

/// A borrowed immutable buffer: the same slot.
pub type z_loaned_shm_t<S> = Owned<ShmChunk<S>>;

/// An immutable buffer on its way to be consumed.
pub type z_moved_shm_t<S> = Moved<ShmChunk<S>>;

/// Where a buffer's bytes are.
#[derive(Clone, Copy, Debug, PartialEq, Eq, Structural)]
pub enum DataPlace {
    /// At an offset of the buffer's segment.
    InSegment(usize),
    /// At an address a caller-supplied allocator handed out.
    At(usize),
}

impl<S> ShmChunk<S> {
    /// Whether `backing` is where the chunk came from, and holds it.
    pub open spec fn held_by(&self, backing: &Backing) -> bool {
        match (self.backing, backing) {
            (ChunkBacking::Native { start, .. }, Backing::Native(segment)) => {
                &&& segment.wf()
                &&& segment.holds(start as int, self.len as int)
            },
            (ChunkBacking::Foreign { .. }, Backing::Foreign(_)) => true,
            _ => false,
        }
    }

    /// Where the chunk's bytes are.
    pub open spec fn place(&self) -> DataPlace {
        match self.backing {
            ChunkBacking::Native { start, .. } => DataPlace::InSegment(start),
            ChunkBacking::Foreign { ptr, .. } => DataPlace::At(ptr.ptr),
        }
    }

    /// The provider the chunk came out of.
    pub open spec fn origin(&self) -> Provider<S> {
        match self.backing {
            ChunkBacking::Native { segment, .. } => Provider::Native(segment),
            ChunkBacking::Foreign { backend, .. } => Provider::Foreign(backend),
        }
    }

    /// A handle on the provider the chunk came out of.
    pub fn provider(&self) -> (provider: Provider<S>)
        ensures
            provider == self.origin(),
    {
        match &self.backing {
            ChunkBacking::Native { segment, .. } => Provider::Native(segment.clone()),
            ChunkBacking::Foreign { backend, .. } => Provider::Foreign(backend.clone()),
        }
    }

    /// Where the chunk's bytes are.
    pub fn data_place(&self) -> (place: DataPlace)
        ensures
            place == self.place(),
    {
        match &self.backing {
            ChunkBacking::Native { start, .. } => DataPlace::InSegment(*start),
            ChunkBacking::Foreign { ptr, .. } => DataPlace::At(ptr.ptr),
        }
    }
}

/// What returning a chunk to its backing does, and what has to be given back
/// through a callback.
pub open spec fn chunk_released<S>(
    chunk: ShmChunk<S>,
    before: Backing,
    after: Backing,
    give_back: Option<GiveBack<S>>,
) -> bool {
    match (chunk.backing, before, after) {
        (ChunkBacking::Native { start, .. }, Backing::Native(was), Backing::Native(is)) => {
            &&& is.wf()
            &&& released(&was, &is, start, chunk.len)
            &&& give_back is None
        },
        (
            ChunkBacking::Foreign { backend, descriptor, ptr },
            Backing::Foreign(was),
            Backing::Foreign(is),
        ) => {
            &&& is == was.without_one()
            &&& give_back == Some(GiveBack { backend, descriptor, ptr })
        },
        _ => false,
    }
}

/// Returns a chunk to its backing.
pub fn release_chunk<S>(chunk: ShmChunk<S>, backing: &mut Backing) -> (give_back: Option<
    GiveBack<S>,
>)
    requires
        chunk.held_by(old(backing)),
    ensures
        chunk_released(chunk, *old(backing), *final(backing), give_back),
{
    match chunk.backing {
        ChunkBacking::Native { start, .. } => {
            if let Backing::Native(segment) = backing {
                segment.release(start, chunk.len);
            }
            None
        },
        ChunkBacking::Foreign { backend, descriptor, ptr } => {
            if let Backing::Foreign(books) = backing {
                books.note_free();
            }
            Some(GiveBack { backend, descriptor, ptr })
        },
    }
}

fn drop_buffer<S>(this_: Option<&mut Moved<ShmChunk<S>>>, backing: Option<&mut Backing>) -> (
    give_back: Option<GiveBack<S>>)
    requires
        this_ matches Some(moved) ==> (moved._this.state matches Some(chunk) ==> (
        backing matches Some(b) && chunk.held_by(b))),
    ensures
        this_ matches Some(moved) ==> final(moved)._this.state is None,
        match (this_, backing) {
            (Some(moved), Some(b)) => match moved._this.state {
                Some(chunk) => chunk_released(chunk, *b, *final(b), give_back),
                None => *final(b) == *b && give_back is None,
            },
            (None, Some(b)) => *final(b) == *b && give_back is None,
            (_, None) => give_back is None,
        },
{
    match (take(this_), backing) {
        (Some(chunk), Some(backing)) => release_chunk(chunk, backing),
        _ => None,
    }
}

/// Drops a mutable buffer, returning its chunk.
pub fn z_shm_mut_drop<S>(
    this_: Option<&mut z_moved_shm_mut_t<S>>,
    backing: Option<&mut Backing>,
) -> (give_back: Option<GiveBack<S>>)
    requires
        this_ matches Some(moved) ==> (moved._this.state matches Some(chunk) ==> (
        backing matches Some(b) && chunk.held_by(b))),
    ensures
        this_ matches Some(moved) ==> final(moved)._this.state is None,
        match (this_, backing) {
            (Some(moved), Some(b)) => match moved._this.state {
                Some(chunk) => chunk_released(chunk, *b, *final(b), give_back),
                None => *final(b) == *b && give_back is None,
            },
            (None, Some(b)) => *final(b) == *b && give_back is None,
            (_, None) => give_back is None,
        },
{
    drop_buffer(this_, backing)
}

/// Drops an immutable buffer, returning its chunk.
pub fn z_shm_drop<S>(this_: Option<&mut z_moved_shm_t<S>>, backing: Option<&mut Backing>) -> (
    give_back: Option<GiveBack<S>>)
    requires
        this_ matches Some(moved) ==> (moved._this.state matches Some(chunk) ==> (
        backing matches Some(b) && chunk.held_by(b))),
    ensures
        this_ matches Some(moved) ==> final(moved)._this.state is None,
        match (this_, backing) {
            (Some(moved), Some(b)) => match moved._this.state {
                Some(chunk) => chunk_released(chunk, *b, *final(b), give_back),
                None => *final(b) == *b && give_back is None,
            },
            (None, Some(b)) => *final(b) == *b && give_back is None,
            (_, None) => give_back is None,
        },
{
    drop_buffer(this_, backing)
}

/// Where a nullable buffer's bytes are.
pub open spec fn place_of<S>(this_: Option<&Owned<ShmChunk<S>>>) -> Option<DataPlace> {
    match live(this_) {
        Some(chunk) => Some(chunk.place()),
        None => None,
    }
}

/// How many bytes a nullable buffer has.
pub open spec fn len_of<S>(this_: Option<&Owned<ShmChunk<S>>>) -> usize {
    match live(this_) {
        Some(chunk) => chunk.len,
        None => 0,
    }
}

fn data<S>(this_: Option<&Owned<ShmChunk<S>>>) -> (place: Option<DataPlace>)
    ensures
        place == place_of(this_),
{
    match state_of(this_) {
        Some(chunk) => Some(chunk.data_place()),
        None => None,
    }
}

fn len<S>(this_: Option<&Owned<ShmChunk<S>>>) -> (len: usize)
    ensures
        len == len_of(this_),
{
    match state_of(this_) {
        Some(chunk) => chunk.len,
        None => 0,
    }
}

/// Where a mutable buffer's bytes are, to write them.
pub fn z_shm_mut_data_mut<S>(this_: Option<&z_loaned_shm_mut_t<S>>) -> (place: Option<DataPlace>)
    ensures
        place == place_of(this_),
{
    data(this_)
}

/// Where a mutable buffer's bytes are.
pub fn z_shm_mut_data<S>(this_: Option<&z_loaned_shm_mut_t<S>>) -> (place: Option<DataPlace>)
    ensures
        place == place_of(this_),
{
    data(this_)
}

/// A mutable buffer's length.
pub fn z_shm_mut_len<S>(this_: Option<&z_loaned_shm_mut_t<S>>) -> (n: usize)
    ensures
        n == len_of(this_),
{
    len(this_)
}

/// Where an immutable buffer's bytes are.
pub fn z_shm_data<S>(this_: Option<&z_loaned_shm_t<S>>) -> (place: Option<DataPlace>)
    ensures
        place == place_of(this_),
{
    data(this_)
}

/// An immutable buffer's length.
pub fn z_shm_len<S>(this_: Option<&z_loaned_shm_t<S>>) -> (n: usize)
    ensures
        n == len_of(this_),
{
    len(this_)
}

/// Borrows a mutable buffer.
pub fn z_shm_mut_loan<S>(this_: Option<&z_owned_shm_mut_t<S>>) -> (loaned: Option<
    &z_loaned_shm_mut_t<S>,
>)
    ensures
        loaned == this_,
{
    this_
}

/// Mutably borrows a mutable buffer.
pub fn z_shm_mut_loan_mut<S>(this_: Option<&mut z_owned_shm_mut_t<S>>) -> (loaned: Option<
    &mut z_loaned_shm_mut_t<S>,
>)
    ensures
        loaned == this_,
{
    this_
}

/// Borrows an immutable buffer.
pub fn z_shm_loan<S>(this_: Option<&z_owned_shm_t<S>>) -> (loaned: Option<&z_loaned_shm_t<S>>)
    ensures
        loaned == this_,
{
    this_
}

/// Mutably borrows an immutable buffer: the borrow is mutable, the buffer's
/// frozen status is not.
pub fn z_shm_loan_mut<S>(this_: Option<&mut z_owned_shm_t<S>>) -> (loaned: Option<
    &mut z_loaned_shm_t<S>,
>)
    ensures
        loaned == this_,
{
    this_
}

/// Freezes a mutable buffer into an immutable one. The source is consumed, and
/// the chunk keeps its place: only its mutable access ends.
pub fn z_shm_from_mut<S>(
    this_: Option<&mut z_owned_shm_t<S>>,
    that: Option<&mut z_moved_shm_mut_t<S>>,
)
    ensures
        match (this_, that) {
            (Some(slot), Some(moved)) => {
                &&& final(moved)._this.state is None
                &&& final(slot).state == (match moved._this.state {
                    Some(chunk) => Some(ShmChunk { mutable: false, ..chunk }),
                    None => None,
                })
            },
            (Some(slot), None) => final(slot).state is None,
            (None, Some(moved)) => *final(moved) == *moved,
            (None, None) => true,
        },
{
    if let Some(slot) = this_ {
        slot.state = match take(that) {
            Some(chunk) => Some(
                ShmChunk { backing: chunk.backing, len: chunk.len, mutable: false },
            ),
            None => None,
        };
    }
}

/// Tries to recover mutable access to a borrowed buffer: there is none to a
/// frozen one.
pub fn z_shm_try_reloan_mut<S>(this_: Option<&mut z_loaned_shm_t<S>>) -> (loaned: Option<
    &mut z_loaned_shm_mut_t<S>,
>)
    ensures
        match this_ {
            Some(slot) => match slot.state {
                Some(chunk) if chunk.mutable => loaned matches Some(out) && *out == *slot
                    && *final(slot) == *final(out),
                _ => loaned is None && *final(slot) == *slot,
            },
            None => loaned is None,
        },
{
    match this_ {
        Some(slot) => {
            let mutable: bool = match &slot.state {
                Some(chunk) => chunk.mutable,
                None => false,
            };
            if mutable {
                Some(slot)
            } else {
                None
            }
        },
        None => None,
    }
}

/// Tries to recover mutable access to an owned buffer.
pub fn z_shm_try_mut<S>(this_: Option<&mut z_owned_shm_t<S>>) -> (loaned: Option<
    &mut z_loaned_shm_mut_t<S>,
>)
    ensures
        match this_ {
            Some(slot) => match slot.state {
                Some(chunk) if chunk.mutable => loaned matches Some(out) && *out == *slot
                    && *final(slot) == *final(out),
                _ => loaned is None && *final(slot) == *slot,
            },
            None => loaned is None,
        },
{
    z_shm_try_reloan_mut(this_)
}

/// Makes a mutable buffer the gravestone.
pub fn z_internal_shm_mut_null<S>(this_: Option<&mut z_owned_shm_mut_t<S>>)
    ensures
        this_ matches Some(slot) ==> final(slot).state is None,
{
    gravestone(this_)
}

/// Whether a mutable buffer is live.
pub fn z_internal_shm_mut_check<S>(this_: Option<&z_owned_shm_mut_t<S>>) -> (r: bool)
    ensures
        r == (live(this_) is Some),
{
    is_live(this_)
}

/// Makes an immutable buffer the gravestone.
pub fn z_internal_shm_null<S>(this_: Option<&mut z_owned_shm_t<S>>)
    ensures
        this_ matches Some(slot) ==> final(slot).state is None,
{
    gravestone(this_)
}

/// Whether an immutable buffer is live.
pub fn z_internal_shm_check<S>(this_: Option<&z_owned_shm_t<S>>) -> (r: bool)
    ensures
        r == (live(this_) is Some),
{
    is_live(this_)
}

/// How far a copy of a buffer got.
#[derive(Clone, Copy, Debug, PartialEq, Eq, Structural)]
pub enum CloneProgress {
    /// It ended; the copy is live where there was room for it.
    Done,
    /// The caller-supplied allocator has to be asked for this layout.
    Ask(MemoryLayoutState),
}

/// Whether `is` is `was` with a copy of the `len` bytes at `source` in a newly
/// served chunk at `start`, and no other byte changed.
pub open spec fn copied_within(
    was: &Segment,
    is: &Segment,
    source: usize,
    len: usize,
    start: usize,
) -> bool {
    &&& is.wf()
    &&& is.base == was.base
    &&& is.len == was.len
    &&& is.align == was.align
    &&& served(was, is, len, 1, start)
    &&& is.content(start as int, len as int) == was.content(source as int, len as int)
    &&& is.store@.len() == was.store@.len()
    &&& forall|i: int|
        0 <= i < was.store@.len() && !(was.base + start <= i < was.base + start + len)
            ==> #[trigger] is.store@[i] == was.store@[i]
}

/// What copying a buffer does.
pub open spec fn shm_cloned<S>(
    source: ShmChunk<S>,
    before: Backing,
    after: Backing,
    copy: Option<ShmChunk<S>>,
    progress: CloneProgress,
) -> bool {
    match (source.backing, before, after) {
        (
            ChunkBacking::Native { segment, start },
            Backing::Native(was),
            Backing::Native(is),
        ) => if can_serve(&was, source.len, 1) {
            &&& progress is Done
            &&& copy matches Some(chunk) && chunk == (ShmChunk {
                backing: ChunkBacking::Native { segment, start: chunk.start() },
                len: source.len,
                mutable: false,
            }) && copied_within(&was, &is, start, source.len, chunk.start())
        } else {
            &&& progress is Done
            &&& copy is None
            &&& is.same_memory(&was)
            &&& is.books.free@ == was.books.free@
        },
        (ChunkBacking::Foreign { .. }, Backing::Foreign(backend), Backing::Foreign(_)) => {
            &&& after == before
            &&& copy is None
            &&& progress == (if backend.callbacks.alloc_fn is Some {
                CloneProgress::Ask(
                    MemoryLayoutState { size: source.len, alignment: byte_alignment() },
                )
            } else {
                CloneProgress::Done
            })
        },
        _ => false,
    }
}

/// Copies an immutable buffer into a new chunk of the same provider. Where the
/// provider has no room for it the copy is a gravestone.
pub fn z_shm_clone<S>(
    out: Option<&mut z_owned_shm_t<S>>,
    this_: Option<&z_loaned_shm_t<S>>,
    backing: Option<&mut Backing>,
) -> (progress: CloneProgress)
    requires
        live(this_) matches Some(chunk) ==> (backing matches Some(b) && chunk.held_by(b)),
    ensures
        match (out, backing) {
            (None, None) => progress is Done,
            (None, Some(b)) => progress is Done && *final(b) == *b,
            (Some(o), None) => progress is Done && final(o).state is None,
            (Some(o), Some(b)) => match live(this_) {
                None => progress is Done && final(o).state is None && *final(b) == *b,
                Some(source) => shm_cloned(source, *b, *final(b), final(o).state, progress),
            },
        },
{
    let out = match out {
        Some(out) => out,
        None => {
            return CloneProgress::Done;
        },
    };
    out.state = None;
    match (state_of(this_), backing) {
        (Some(source), Some(backing)) => {
            let (copy, progress) = clone_chunk(source, backing);
            out.state = copy;
            progress
        },
        _ => CloneProgress::Done,
    }
}

fn clone_chunk<S>(source: &ShmChunk<S>, backing: &mut Backing) -> (r: (
    Option<ShmChunk<S>>,
    CloneProgress,
))
    requires
        source.held_by(old(backing)),
    ensures
        shm_cloned(*source, *old(backing), *final(backing), r.0, r.1),
{
    let provider = source.provider();
    proof {
        vstd::arithmetic::power2::lemma_pow2_pos(0);
        vstd::arithmetic::power2::lemma2_to64();
    }
    match provider.attempt(backing, source.len, align_byte(), false) {
        ProviderStep::Ready(chunk) => {
            if let Backing::Native(segment) = backing {
                if let ChunkBacking::Native { start: from, .. } = &source.backing {
                    if let ChunkBacking::Native { start: to, .. } = &chunk.backing {
                        let bytes = segment.read(*from, source.len);
                        segment.write(*to, &bytes);
                    }
                }
            }
            (
                Some(ShmChunk { backing: chunk.backing, len: chunk.len, mutable: false }),
                CloneProgress::Done,
            )
        },
        ProviderStep::Ask(layout) => (None, CloneProgress::Ask(layout)),
        _ => (None, CloneProgress::Done),
    }
}

/// Ends a copy that asked a caller-supplied allocator, given its report. The
/// caller fills a live copy with the source's bytes.
pub fn z_shm_clone_reply<S>(
    out: &mut z_owned_shm_t<S>,
    handle: &Arc<S>,
    backend: &mut ForeignBackend,
    len: usize,
    reply: Option<ChunkAllocResult<S>>,
) -> (give_back: Option<GiveBack<S>>)
    requires
        old(backend).live < usize::MAX,
    ensures
        clone_replied(
            *handle,
            *old(backend),
            *final(backend),
            len,
            reply,
            final(out).state,
            give_back,
        ),
{
    let (step, give_back) = backend.settle(handle, len, false, reply);
    out.state = match step {
        ProviderStep::Ready(chunk) => Some(
            ShmChunk { backing: chunk.backing, len: chunk.len, mutable: false },
        ),
        _ => None,
    };
    give_back
}

/// What a caller-supplied allocator's report on a copy comes to.
pub open spec fn clone_replied<S>(
    handle: Arc<S>,
    before: ForeignBackend,
    after: ForeignBackend,
    len: usize,
    reply: Option<ChunkAllocResult<S>>,
    copy: Option<ShmChunk<S>>,
    give_back: Option<GiveBack<S>>,
) -> bool {
    match reply {
        Some(ChunkAllocResult::Allocated { descriptor, ptr }) => if descriptor.len < len || ptr.ptr
            == 0 {
            &&& after == before
            &&& give_back == Some(GiveBack { backend: handle, descriptor, ptr })
            &&& copy is None
        } else {
            &&& after == before.with_one()
            &&& give_back is None
            &&& copy == Some(
                ShmChunk {
                    backing: ChunkBacking::Foreign { backend: handle, descriptor, ptr },
                    len,
                    mutable: false,
                },
            )
        },
        _ => {
            &&& after == before
            &&& give_back is None
            &&& copy is None
        },
    }
}

/// The bytes of a chunk: those of its range of a segment, or those the caller
/// found at a caller-supplied allocator's address.
pub open spec fn chunk_content<S>(chunk: ShmChunk<S>, backing: Backing, found: Seq<u8>) -> Seq<
    u8,
> {
    match (chunk.backing, backing) {
        (ChunkBacking::Native { start, .. }, Backing::Native(segment)) => segment.content(
            start as int,
            chunk.len as int,
        ),
        _ => found,
    }
}

/// Builds a payload from an immutable buffer. The buffer is consumed: its bytes
/// are copied and its chunk goes back. `found` is what the caller found at the
/// address of a chunk of a caller-supplied allocator.
pub fn z_bytes_from_shm<S>(
    this_: Option<&mut z_owned_bytes_t>,
    shm: Option<&mut z_moved_shm_t<S>>,
    backing: Option<&mut Backing>,
    found: &Vec<u8>,
) -> (r: (ZResult, Option<GiveBack<S>>))
    requires
        shm matches Some(moved) ==> (moved._this.state matches Some(chunk) ==> (
        backing matches Some(b) && chunk.held_by(b))),
    ensures
        match this_ {
            None => {
                &&& r.0 == Z_ENULL
                &&& r.1 is None
                &&& shm matches Some(moved) ==> *final(moved) == *moved
                &&& backing matches Some(b) ==> *final(b) == *b
            },
            Some(slot) => match shm {
                None => {
                    &&& r.0 == Z_ENULL
                    &&& r.1 is None
                    &&& final(slot).state is None
                    &&& backing matches Some(b) ==> *final(b) == *b
                },
                Some(moved) => {
                    &&& final(moved)._this.state is None
                    &&& match (moved._this.state, backing) {
                        (Some(chunk), Some(b)) => {
                            &&& r.0 == Z_OK
                            &&& final(slot).state matches Some(bytes) && bytes.payload@
                                == chunk_content(chunk, *b, found@)
                            &&& chunk_released(chunk, *b, *final(b), r.1)
                        },
                        (None, _) => {
                            &&& r.0 == Z_ENULL
                            &&& r.1 is None
                            &&& final(slot).state is None
                            &&& backing matches Some(b) ==> *final(b) == *b
                        },
                        _ => true,
                    }
                },
            },
        },
{
    let slot = match this_ {
        Some(slot) => slot,
        None => {
            return (Z_ENULL, None);
        },
    };
    slot.state = None;
    match (take(shm), backing) {
        (Some(chunk), Some(backing)) => {
            let payload = payload_of_chunk(&chunk, backing, found);
            let give_back = release_chunk(chunk, backing);
            slot.state = Some(BytesState::whole(payload));
            (Z_OK, give_back)
        },
        _ => (Z_ENULL, None),
    }
}

fn payload_of_chunk<S>(chunk: &ShmChunk<S>, backing: &Backing, found: &Vec<u8>) -> (payload: Vec<
    u8,
>)
    requires
        chunk.held_by(backing),
    ensures
        payload@ == chunk_content(*chunk, *backing, found@),
{
    match (&chunk.backing, backing) {
        (ChunkBacking::Native { start, .. }, Backing::Native(segment)) => segment.read(
            *start,
            chunk.len,
        ),
        _ => copy_bytes(found),
    }
}

/// Builds a payload from a mutable buffer, as [`z_bytes_from_shm`] does.
pub fn z_bytes_from_shm_mut<S>(
    this_: Option<&mut z_owned_bytes_t>,
    shm: Option<&mut z_moved_shm_mut_t<S>>,
    backing: Option<&mut Backing>,
    found: &Vec<u8>,
) -> (r: (ZResult, Option<GiveBack<S>>))
    requires
        shm matches Some(moved) ==> (moved._this.state matches Some(chunk) ==> (
        backing matches Some(b) && chunk.held_by(b))),
    ensures
        match this_ {
            None => {
                &&& r.0 == Z_ENULL
                &&& r.1 is None
                &&& shm matches Some(moved) ==> *final(moved) == *moved
                &&& backing matches Some(b) ==> *final(b) == *b
            },
            Some(slot) => match shm {
                None => {
                    &&& r.0 == Z_ENULL
                    &&& r.1 is None
                    &&& final(slot).state is None
                    &&& backing matches Some(b) ==> *final(b) == *b
                },
                Some(moved) => {
                    &&& final(moved)._this.state is None
                    &&& match (moved._this.state, backing) {
                        (Some(chunk), Some(b)) => {
                            &&& r.0 == Z_OK
                            &&& final(slot).state matches Some(bytes) && bytes.payload@
                                == chunk_content(chunk, *b, found@)
                            &&& chunk_released(chunk, *b, *final(b), r.1)
                        },
                        (None, _) => {
                            &&& r.0 == Z_ENULL
                            &&& r.1 is None
                            &&& final(slot).state is None
                            &&& backing matches Some(b) ==> *final(b) == *b
                        },
                        _ => true,
                    }
                },
            },
        },
{
    z_bytes_from_shm(this_, shm, backing, found)
}

/// Tries to view a payload as an immutable buffer. No payload is backed by one,
/// so a live payload answers that it is not and a dead one that it is null.
pub fn z_bytes_as_loaned_shm<'a, S>(
    this_: Option<&z_loaned_bytes_t>,
    dst: Option<&mut Option<&'a z_loaned_shm_t<S>>>,
) -> (code: ZResult)
    ensures
        code == (if live(this_) is None {
            Z_ENULL
        } else {
            Z_EINVAL
        }),
        dst matches Some(out) ==> *final(out) is None,
{
    if let Some(out) = dst {
        *out = None;
    }
    if is_live(this_) {
        Z_EINVAL
    } else {
        Z_ENULL
    }
}

/// Tries to view a payload as a mutable buffer, as [`z_bytes_as_loaned_shm`]
/// does.
pub fn z_bytes_as_mut_loaned_shm<'a, S>(
    this_: Option<&z_loaned_bytes_t>,
    dst: Option<&mut Option<&'a z_loaned_shm_t<S>>>,
) -> (code: ZResult)
    ensures
        code == (if live(this_) is None {
            Z_ENULL
        } else {
            Z_EINVAL
        }),
        dst matches Some(out) ==> *final(out) is None,
{
    z_bytes_as_loaned_shm(this_, dst)
}

} // verus!
