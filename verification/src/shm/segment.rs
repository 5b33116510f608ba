//! A segment: the memory a provider owns, and the books over it.

use vstd::arithmetic::div_mod::lemma_fundamental_div_mod;
use vstd::arithmetic::div_mod::lemma_mod_multiples_vanish;
use vstd::arithmetic::div_mod::lemma_small_mod;
use vstd::prelude::*;

use crate::shm::books::aligned_up;
use crate::shm::books::carved;
use crate::shm::books::coalesced;
use crate::shm::books::insertion_point;
use crate::shm::books::is_first_fit;
use crate::shm::books::is_free;
use crate::shm::books::lemma_aligned_up;
use crate::shm::books::lemma_coalesced_unique;
use crate::shm::books::lemma_whole_range_is_served;
use crate::shm::books::returned;
use crate::shm::books::total;
use crate::shm::books::FreeRange;
use crate::shm::books::SegmentBooks;

verus! {

/// Why an allocation failed.
pub type z_alloc_error_t = i32;

/// There is room in total, but no single range holds the request.
pub const Z_ALLOC_ERROR_NEED_DEFRAGMENT: z_alloc_error_t = 0;

/// There is not enough room.
pub const Z_ALLOC_ERROR_OUT_OF_MEMORY: z_alloc_error_t = 1;

/// Any other failure.
pub const Z_ALLOC_ERROR_OTHER: z_alloc_error_t = 2;

/// The alignment every segment's base has at least: a page, so that an offset
/// aligned inside the segment is aligned in memory too.
pub const SEGMENT_ALIGN: usize = 4096;

/// The alignment a segment gets when `align` is asked for.
pub open spec fn widened(align: usize) -> usize {
    if align < SEGMENT_ALIGN {
        SEGMENT_ALIGN
    } else {
        align
    }
}

/// Whether memory of `len` bytes can be laid out at `align`: rounded up to the
/// alignment it still fits an `isize`. Nothing has to be laid out for no bytes.
pub open spec fn can_be_laid_out(len: usize, align: usize) -> bool {
    len == 0 || len + (align - 1) <= isize::MAX
}

/// Tests [`can_be_laid_out`].
pub fn layout_is_possible(len: usize, align: usize) -> (r: bool)
    requires
        align > 0,
    ensures
        r == can_be_laid_out(len, align),
{
    if len == 0 {
        true
    } else {
        match len.checked_add(align - 1) {
            Some(span) => span <= isize::MAX as usize,
            None => false,
        }
    }
}

/// A provider's memory and its book-keeping.
pub struct Segment {
    /// The memory, with room to put the base on an aligned address.
    pub store: Vec<u8>,
    /// Where in `store` the segment's first byte is.
    pub base: usize,
    /// The segment's length in bytes.
    pub len: usize,
    /// The alignment of the address of the first byte.
    pub align: usize,
    /// Which bytes are free.
    pub books: SegmentBooks,
}

/// How far an allocation got.
pub enum AllocStep<T> {
    /// It was served.
    Ready(T),
    /// It failed for good.
    Refused(z_alloc_error_t),
    /// It has to wait for a release and be tried again.
    Wait,
}

impl Segment {
    /// The books stay inside the segment, and the segment inside its memory.
    pub open spec fn wf(&self) -> bool {
        &&& self.books.wf()
        &&& forall|i: int|
            0 <= i < self.books.free@.len() ==> (#[trigger] self.books.free@[i]).end <= self.len
        &&& self.base + self.len <= self.store@.len()
        &&& self.align >= SEGMENT_ALIGN
    }

    /// Whether `[start, start + len)` lies in the segment and none of it is free.
    pub open spec fn holds(&self, start: int, len: int) -> bool {
        &&& 0 <= start
        &&& start + len <= self.len
        &&& forall|b: int| start <= b < start + len ==> !#[trigger] is_free(self.books.free@, b)
    }

    /// The bytes of `[start, start + len)`.
    pub open spec fn content(&self, start: int, len: int) -> Seq<u8> {
        self.store@.subrange(self.base + start, self.base + start + len)
    }

    /// Whether only the books differ from `other`.
    pub open spec fn same_memory(&self, other: &Segment) -> bool {
        &&& self.store@ == other.store@
        &&& self.base == other.base
        &&& self.len == other.len
        &&& self.align == other.align
    }

    /// Whether the segment is fresh: `len` zero bytes at `align`, all free in
    /// one range.
    pub open spec fn is_fresh(&self, len: usize, align: usize) -> bool {
        &&& self.len == len
        &&& self.align == align
        &&& self.base == 0
        &&& self.store@.len() == (if len == 0 {
            0
        } else {
            len + (align - 1)
        })
        &&& forall|i: int| 0 <= i < self.store@.len() ==> #[trigger] self.store@[i] == 0
        &&& self.books.free@ == (if len == 0 {
            Seq::<FreeRange>::empty()
        } else {
            seq![FreeRange { start: 0, end: len }]
        })
    }

    /// A segment of `len` bytes, all free, at page alignment. A segment of no
    /// bytes is legal.
    pub fn new(len: usize) -> (segment: Segment)
        requires
            can_be_laid_out(len, SEGMENT_ALIGN),
        ensures
            segment.wf(),
            segment.is_fresh(len, SEGMENT_ALIGN),
    {
        Segment::with_alignment(len, SEGMENT_ALIGN)
    }

    /// A segment of `len` bytes, all free, whose base is aligned to at least
    /// `align`. A request below a page is widened to a page.
    pub fn with_alignment(len: usize, align: usize) -> (segment: Segment)
        requires
            can_be_laid_out(len, widened(align)),
        ensures
            segment.wf(),
            segment.is_fresh(len, widened(align)),
    {
        let align: usize = if align < SEGMENT_ALIGN {
            SEGMENT_ALIGN
        } else {
            align
        };
        let span: usize = if len == 0 {
            0
        } else {
            len + (align - 1)
        };
        let store: Vec<u8> = vec![0u8; span];
        let mut free: Vec<FreeRange> = Vec::new();
        if len > 0 {
            free.push(FreeRange { start: 0, end: len });
        }
        proof {
            assert(free@ =~= (if len == 0 {
                Seq::<FreeRange>::empty()
            } else {
                seq![FreeRange { start: 0, end: len }]
            }));
        }
        Segment { store, base: 0, len, align, books: SegmentBooks { free } }
    }

    /// Puts the base of a fresh segment on an aligned address, given the address
    /// of the first byte of its memory.
    pub fn place(&mut self, address: usize)
        requires
            old(self).wf(),
            old(self).is_fresh(old(self).len, old(self).align),
            address + old(self).store@.len() <= usize::MAX,
        ensures
            final(self).wf(),
            final(self).store@ == old(self).store@,
            final(self).len == old(self).len,
            final(self).align == old(self).align,
            final(self).books == old(self).books,
            final(self).base == (if old(self).len == 0 {
                0
            } else {
                aligned_up(address as int, old(self).align as int) - address
            }),
    {
        if self.len > 0 {
            let over: usize = address % self.align;
            proof {
                lemma_aligned_up(address as int, self.align as int);
            }
            self.base = if over == 0 {
                0
            } else {
                self.align - over
            };
        }
    }

    /// The books.
    pub fn books(&mut self) -> (books: &mut SegmentBooks)
        ensures
            *books == old(self).books,
            *final(self) == (Segment { books: *final(books), ..*old(self) }),
    {
        &mut self.books
    }

    /// Returns a chunk's range to the books. An empty chunk has none.
    pub fn release(&mut self, start: usize, len: usize)
        requires
            old(self).wf(),
            old(self).holds(start as int, len as int),
        ensures
            final(self).wf(),
            released(old(self), final(self), start, len),
    {
        if len > 0 {
            self.books.release(start, start + len);
            proof {
                assert forall|i: int| 0 <= i < self.books.free@.len() implies (
                #[trigger] self.books.free@[i]).end <= self.len by {
                    let last = self.books.free@[i].end - 1;
                    assert(self.books.free@[i].holds(last));
                    assert(is_free(self.books.free@, last));
                    if is_free(old(self).books.free@, last) {
                        let k = choose|k: int|
                            0 <= k < old(self).books.free@.len() && (
                            #[trigger] old(self).books.free@[k]).holds(last);
                        assert(old(self).books.free@[k].end <= self.len);
                    }
                }
            }
        }
    }

    /// The bytes of a chunk.
    pub fn read(&self, start: usize, len: usize) -> (bytes: Vec<u8>)
        requires
            self.wf(),
            start + len <= self.len,
        ensures
            bytes@ == self.content(start as int, len as int),
    {
        let room: usize = self.store.len();
        let mut bytes: Vec<u8> = Vec::new();
        let mut i: usize = 0;
        while i < len
            invariant
                self.wf(),
                room == self.store@.len(),
                start + len <= self.len,
                i <= len,
                bytes@ == self.content(start as int, i as int),
            decreases len - i,
        {
            bytes.push(self.store[self.base + start + i]);
            i = i + 1;
            assert(bytes@ =~= self.content(start as int, i as int));
        }
        bytes
    }

    /// Writes `bytes` into the segment from `start` on.
    pub fn write(&mut self, start: usize, bytes: &Vec<u8>)
        requires
            old(self).wf(),
            start + bytes@.len() <= old(self).len,
        ensures
            final(self).wf(),
            final(self).base == old(self).base,
            final(self).len == old(self).len,
            final(self).align == old(self).align,
            final(self).books == old(self).books,
            final(self).content(start as int, bytes@.len() as int) == bytes@,
            final(self).store@.len() == old(self).store@.len(),
            forall|i: int|
                0 <= i < old(self).store@.len() && !(old(self).base + start <= i < old(self).base
                    + start + bytes@.len()) ==> #[trigger] final(self).store@[i] == old(
                    self,
                ).store@[i],
    {
        let room: usize = self.store.len();
        let mut i: usize = 0;
        while i < bytes.len()
            invariant
                self.wf(),
                room == self.store@.len(),
                start + bytes@.len() <= self.len,
                i <= bytes@.len(),
                self.base == old(self).base,
                self.len == old(self).len,
                self.align == old(self).align,
                self.books == old(self).books,
                self.store@.len() == old(self).store@.len(),
                forall|k: int|
                    0 <= k < i ==> #[trigger] self.store@[self.base + start + k] == bytes@[k],
                forall|k: int|
                    0 <= k < self.store@.len() && !(self.base + start <= k < self.base + start
                        + bytes@.len()) ==> #[trigger] self.store@[k] == old(self).store@[k],
            decreases bytes@.len() - i,
        {
            let at: usize = self.base + start + i;
            self.store[at] = bytes[i];
            i = i + 1;
        }
        proof {
            assert forall|k: int| 0 <= k < bytes@.len() implies #[trigger] self.content(
                start as int,
                bytes@.len() as int,
            )[k] == bytes@[k] by {
                assert(self.store@[self.base + start + k] == bytes@[k]);
            }
            assert(self.content(start as int, bytes@.len() as int) =~= bytes@);
        }
    }
}

/// Why a request that no free range can serve is refused: there is not enough
/// room, or there is but not in one range. A segment of no bytes has no room for
/// any request, an empty one among them.
pub open spec fn refusal(segment: &Segment, size: usize) -> z_alloc_error_t {
    if size > segment.len || total(segment.books.free@) < size || segment.len == 0 {
        Z_ALLOC_ERROR_OUT_OF_MEMORY
    } else {
        Z_ALLOC_ERROR_NEED_DEFRAGMENT
    }
}

/// Whether some free range of the segment can serve the request.
pub open spec fn can_serve(segment: &Segment, size: usize, align: usize) -> bool {
    exists|i: int|
        0 <= i < segment.books.free@.len() && (#[trigger] segment.books.free@[i]).fits(
            size as int,
            align as int,
        )
}

/// Whether `after` is `before` with a chunk of `size` bytes at `align` cut out of
/// it at `start`: out of the first free range that can serve it, so that exactly
/// the chunk's bytes stop being free.
pub open spec fn served(
    before: &Segment,
    after: &Segment,
    size: usize,
    align: usize,
    start: usize,
) -> bool {
    &&& start as int % align as int == 0
    &&& start + size <= before.len
    &&& after.holds(start as int, size as int)
    &&& forall|b: int| start <= b < start + size ==> #[trigger] is_free(before.books.free@, b)
    &&& forall|b: int| #[trigger]
        is_free(after.books.free@, b) <==> is_free(before.books.free@, b) && !(start <= b < start
            + size)
    &&& total(after.books.free@) == total(before.books.free@) - size
    &&& exists|i: int| #[trigger]
        is_first_fit(before.books.free@, size as int, align as int, i) && start == aligned_up(
            before.books.free@[i].start as int,
            align as int,
        ) && after.books.free@ == carved(
            before.books.free@,
            i,
            start,
            (start + size) as usize,
        )
}

/// Whether `after` is `before` with the chunk `[start, start + len)` returned to
/// its books: exactly the chunk's bytes became free, and a range that touches it
/// was merged with it.
pub open spec fn released(before: &Segment, after: &Segment, start: usize, len: usize) -> bool {
    &&& after.same_memory(before)
    &&& forall|b: int| #[trigger]
        is_free(after.books.free@, b) <==> is_free(before.books.free@, b) || start <= b < start
            + len
    &&& total(after.books.free@) == total(before.books.free@) + len
    &&& len == 0 ==> after.books == before.books
    &&& len > 0 ==> exists|at: int| #[trigger]
        insertion_point(before.books.free@, start as int, at) && after.books.free@ == returned(
            before.books.free@,
            FreeRange { start, end: (start + len) as usize },
            at,
        )
}

/// Claims `size` bytes at `align` out of a segment. A request no range can serve
/// is refused, unless the caller wants to block and a release could still help:
/// one larger than the whole segment is refused either way.
pub fn native_alloc(segment: &mut Segment, size: usize, align: usize, blocking: bool) -> (step:
    AllocStep<usize>)
    requires
        old(segment).wf(),
        align > 0,
    ensures
        final(segment).wf(),
        final(segment).same_memory(old(segment)),
        step is Ready <==> can_serve(old(segment), size, align),
        step matches AllocStep::Ready(start) ==> served(
            old(segment),
            final(segment),
            size,
            align,
            start,
        ),
        !(step is Ready) ==> {
            &&& final(segment).books.free@ == old(segment).books.free@
            &&& step == (if size > old(segment).len || !blocking {
                AllocStep::<usize>::Refused(refusal(old(segment), size))
            } else {
                AllocStep::<usize>::Wait
            })
        },
{
    match segment.books.claim(size, align) {
        Some(start) => {
            proof {
                let before = old(segment).books.free@;
                let i = choose|i: int| #[trigger]
                    is_first_fit(before, size as int, align as int, i) && start
                        == aligned_up(before[i].start as int, align as int)
                        && segment.books.free@ == carved(
                        before,
                        i,
                        start,
                        (start + size) as usize,
                    );
                assert(before[i].end <= segment.len);
                assert forall|k: int| 0 <= k < segment.books.free@.len() implies (
                #[trigger] segment.books.free@[k]).end <= segment.len by {
                    let last = segment.books.free@[k].end - 1;
                    assert(segment.books.free@[k].holds(last));
                    assert(is_free(segment.books.free@, last));
                    let j = choose|j: int| 0 <= j < before.len() && (#[trigger] before[j]).holds(last);
                    assert(before[j].end <= segment.len);
                }
            }
            AllocStep::Ready(start)
        },
        None => {
            if size > segment.len || !blocking {
                let left: usize = segment.books.available();
                if size > segment.len || left < size || segment.len == 0 {
                    AllocStep::Refused(Z_ALLOC_ERROR_OUT_OF_MEMORY)
                } else {
                    AllocStep::Refused(Z_ALLOC_ERROR_NEED_DEFRAGMENT)
                }
            } else {
                AllocStep::Wait
            }
        },
    }
}

/// Whether two ranges share no byte.
pub open spec fn apart(start: int, size: int, other: int, other_len: int) -> bool {
    size <= 0 || other_len <= 0 || start + size <= other || other + other_len <= start
}

/// A newly served chunk aliases no chunk that was held before, and every chunk
/// that was held stays held.
pub proof fn lemma_served_chunk_is_disjoint(
    before: &Segment,
    after: &Segment,
    start: int,
    size: int,
    other: int,
    other_len: int,
)
    requires
        before.holds(other, other_len),
        after.len == before.len,
        forall|b: int| start <= b < start + size ==> #[trigger] is_free(before.books.free@, b),
        forall|b: int| #[trigger]
            is_free(after.books.free@, b) <==> is_free(before.books.free@, b) && !(start <= b
                < start + size),
    ensures
        apart(start, size, other, other_len),
        after.holds(other, other_len),
{
    if !apart(start, size, other, other_len) {
        let b = if start <= other {
            other
        } else {
            start
        };
        assert(is_free(before.books.free@, b));
    }
}

/// Releasing one chunk leaves every chunk that shares no byte with it held.
pub proof fn lemma_release_keeps_the_others(
    before: &Segment,
    after: &Segment,
    start: int,
    size: int,
    other: int,
    other_len: int,
)
    requires
        before.holds(other, other_len),
        after.len == before.len,
        apart(start, size, other, other_len),
        forall|b: int| #[trigger]
            is_free(after.books.free@, b) <==> is_free(before.books.free@, b) || start <= b < start
                + size,
    ensures
        after.holds(other, other_len),
{
}

/// Writing into one chunk changes no byte of a chunk that shares none with it.
pub proof fn lemma_write_is_local(
    before: &Segment,
    after: &Segment,
    start: int,
    size: int,
    other: int,
    other_len: int,
)
    requires
        before.wf(),
        0 <= other,
        0 <= other_len,
        other + other_len <= before.len,
        after.base == before.base,
        after.store@.len() == before.store@.len(),
        apart(start, size, other, other_len),
        forall|i: int|
            0 <= i < before.store@.len() && !(before.base + start <= i < before.base + start + size)
                ==> #[trigger] after.store@[i] == before.store@[i],
    ensures
        after.content(other, other_len) == before.content(other, other_len),
{
    assert forall|k: int| 0 <= k < other_len implies #[trigger] after.content(other, other_len)[k]
        == before.content(other, other_len)[k] by {
        let b = other + k;
        assert(!(start <= b < start + size));
        assert(after.store@[before.base + b] == before.store@[before.base + b]);
    }
    assert(after.content(other, other_len) =~= before.content(other, other_len));
}

/// An offset aligned inside a segment is aligned in memory, for every alignment
/// that divides the segment's own.
pub proof fn lemma_offset_alignment_reaches_the_address(
    base_address: int,
    segment_align: int,
    start: int,
    align: int,
)
    requires
        0 < align,
        0 < segment_align,
        segment_align % align == 0,
        base_address % segment_align == 0,
        start % align == 0,
    ensures
        (base_address + start) % align == 0,
{
    lemma_fundamental_div_mod(base_address, segment_align);
    lemma_fundamental_div_mod(segment_align, align);
    lemma_fundamental_div_mod(start, align);
    let (p, q, r) = (base_address / segment_align, segment_align / align, start / align);
    assert(base_address + start == align * (q * p + r) + 0) by (nonlinear_arith)
        requires
            base_address == segment_align * p,
            segment_align == align * q,
            start == align * r,
    ;
    lemma_mod_multiples_vanish(q * p + r, 0, align);
    lemma_small_mod(0, align as nat);
}

/// Once every byte of a segment has been released, its free list is the one range
/// it started with, provided no two of its ranges touch: an empty chunk cut out of
/// the middle of a range is what can leave two that do.
pub proof fn lemma_all_released_is_one_range(segment: &Segment)
    requires
        segment.wf(),
        coalesced(segment.books.free@),
        0 < segment.len,
        forall|b: int| 0 <= b < segment.len ==> #[trigger] is_free(segment.books.free@, b),
    ensures
        segment.books.free@ == seq![FreeRange { start: 0, end: segment.len }],
{
    let free = segment.books.free@;
    let whole = seq![FreeRange { start: 0, end: segment.len }];
    assert forall|b: int| #[trigger] is_free(free, b) <==> is_free(whole, b) by {
        if is_free(free, b) {
            let i = choose|i: int| 0 <= i < free.len() && (#[trigger] free[i]).holds(b);
            assert(free[i].end <= segment.len);
            assert(whole[0].holds(b));
        }
        if is_free(whole, b) {
            assert(whole[0].holds(b));
        }
    }
    lemma_coalesced_unique(free, whole);
}

/// A request that fits the segment at all is served once everything has been
/// released, at any alignment: a caller that waits waits for something.
pub proof fn lemma_a_waiting_request_can_be_served(segment: &Segment, size: usize, align: usize)
    requires
        0 < segment.len,
        size <= segment.len,
        0 < align,
        segment.books.free@ == seq![FreeRange { start: 0, end: segment.len }],
    ensures
        can_serve(segment, size, align),
{
    lemma_whole_range_is_served(segment.len, align as int);
    assert(segment.books.free@[0].fits(size as int, align as int));
}

} // verus!
