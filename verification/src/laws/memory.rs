//! Laws of free lists, segments and memory layouts.

use vstd::prelude::*;

use crate::result::ZResult;
use crate::shm::books::aligned_up;
use crate::shm::books::is_free;
use crate::shm::books::is_first_fit;
use crate::shm::books::lemma_aligned_up;
use crate::shm::books::total;
use crate::shm::books::FreeRange;
use crate::shm::books::SegmentBooks;
use crate::shm::layout::align_byte;
use crate::shm::layout::alignment_bytes;
use crate::shm::layout::alignment_fits;
use crate::shm::layout::z_alloc_alignment_t;
use crate::shm::layout::z_loaned_memory_layout_t;
use crate::shm::layout::z_memory_layout_get_data;
use crate::shm::layout::z_memory_layout_new;
use crate::shm::layout::z_owned_memory_layout_t;
use crate::shm::segment::layout_is_possible;
use crate::shm::segment::native_alloc;
use crate::shm::segment::AllocStep;
use crate::shm::segment::Segment;

verus! {

/// A byte is free exactly where some range of the list reaches over it.
pub proof fn lemma_a_free_byte_is_in_a_range(free: Seq<FreeRange>, at: int)
    ensures
        is_free(free, at) == exists|i: int|
            0 <= i < free.len() && (#[trigger] free[i]).start <= at < free[i].end,
{
    if is_free(free, at) {
        let i = choose|i: int| 0 <= i < free.len() && (#[trigger] free[i]).holds(at);
        assert(free[i].start <= at < free[i].end);
    }
    if exists|i: int| 0 <= i < free.len() && (#[trigger] free[i]).start <= at < free[i].end {
        let i = choose|i: int|
            0 <= i < free.len() && (#[trigger] free[i]).start <= at < free[i].end;
        assert(free[i].holds(at));
    }
}

/// A claim takes the lowest aligned place in the first range that has one: it lies
/// inside that range, less than one alignment above its start, and no range before it
/// has any aligned place for the request.
pub proof fn lemma_a_claim_takes_the_first_place_that_fits(
    books: &mut SegmentBooks,
    len: usize,
    align: usize,
    at: Option<usize>,
)
    requires
        align > 0,
        call_ensures(SegmentBooks::claim, (books, len, align), at),
    ensures
        at matches Some(start) ==> {
            &&& start as int % align as int == 0
            &&& exists|i: int|
                {
                    &&& 0 <= i < old(books).free@.len()
                    &&& (#[trigger] old(books).free@[i]).start <= start
                    &&& start + len <= old(books).free@[i].end
                    &&& start < old(books).free@[i].start + align
                    &&& forall|j: int, m: int|
                        #![trigger old(books).free@[j], m % align as int]
                        0 <= j < i && old(books).free@[j].start <= m && m % align as int == 0 ==> m
                            + len > old(books).free@[j].end
                }
        },
        at is None ==> final(books).free@ == old(books).free@ && forall|j: int, m: int|
            #![trigger old(books).free@[j], m % align as int]
            0 <= j < old(books).free@.len() && old(books).free@[j].start <= m && m % align as int
                == 0 ==> m + len > old(books).free@[j].end,
{
    let free = old(books).free@;
    assert forall|j: int, m: int|
        #![trigger free[j], m % align as int]
        0 <= j < free.len() && free[j].start <= m && m % align as int == 0 && !free[j].fits(
            len as int,
            align as int,
        ) implies m + len > free[j].end by {
        lemma_aligned_up(free[j].start as int, align as int);
    }
    if at is Some {
        let i = choose|i: int| #[trigger]
            is_first_fit(free, len as int, align as int, i) && at->0 == aligned_up(
                free[i].start as int,
                align as int,
            );
        lemma_aligned_up(free[i].start as int, align as int);
        assert(free[i].start <= at->0);
    }
}

/// Claiming takes exactly the bytes it was asked for from those that are free, and
/// releasing adds exactly the bytes that come back.
pub proof fn lemma_claims_and_releases_are_exact(
    books: &mut SegmentBooks,
    len: usize,
    align: usize,
    start: usize,
    released: &mut SegmentBooks,
    from: usize,
    to: usize,
    b: int,
)
    requires
        call_ensures(SegmentBooks::claim, (books, len, align), Some(start)),
        call_ensures(SegmentBooks::release, (released, from, to), ()),
    ensures
        start <= b < start + len ==> is_free(old(books).free@, b),
        is_free(final(books).free@, b) <==> is_free(old(books).free@, b) && !(start <= b < start
            + len),
        is_free(final(released).free@, b) <==> is_free(old(released).free@, b) || from <= b < to,
        total(final(books).free@) == total(old(books).free@) - len,
        total(final(released).free@) == total(old(released).free@) + (to - from),
{
}

/// Ranges stay in order, apart and never empty, and releasing leaves no two that touch
/// where none did.
pub proof fn lemma_books_stay_in_order(
    books: &mut SegmentBooks,
    len: usize,
    align: usize,
    at: Option<usize>,
    released: &mut SegmentBooks,
    from: usize,
    to: usize,
    i: int,
    j: int,
)
    requires
        call_ensures(SegmentBooks::claim, (books, len, align), at),
        call_ensures(SegmentBooks::release, (released, from, to), ()),
        0 <= i < j,
        forall|x: int, y: int|
            0 <= x < y < old(released).free@.len() ==> (#[trigger] old(released).free@[x]).end < (
            #[trigger] old(released).free@[y]).start,
    ensures
        j < final(books).free@.len() ==> final(books).free@[i].start < final(books).free@[i].end
            && final(books).free@[i].end <= final(books).free@[j].start,
        j < final(released).free@.len() ==> final(released).free@[i].start
            < final(released).free@[i].end && final(released).free@[i].end
            < final(released).free@[j].start,
{
}

/// What is available is the bytes of every range, and the largest is the longest of
/// them.
pub proof fn lemma_figures_add_up(
    shorter: SegmentBooks,
    longer: SegmentBooks,
    range: FreeRange,
    less: usize,
    more: usize,
    size: usize,
)
    requires
        longer.free@ == shorter.free@.push(range),
        call_ensures(SegmentBooks::available, (&shorter,), less),
        call_ensures(SegmentBooks::available, (&longer,), more),
        call_ensures(SegmentBooks::largest, (&longer,), size),
    ensures
        shorter.free@.len() == 0 ==> less == 0,
        more == less + (range.end - range.start),
        forall|i: int|
            0 <= i < longer.free@.len() ==> (#[trigger] longer.free@[i]).end - longer.free@[i].start
                <= size,
        exists|i: int|
            0 <= i < longer.free@.len() && (#[trigger] longer.free@[i]).end
                - longer.free@[i].start == size,
{
    assert(longer.free@.drop_last() =~= shorter.free@);
    assert(longer.free@.last() == range);
    assert forall|i: int| 0 <= i < longer.free@.len() implies (#[trigger] longer.free@[i]).end
        - longer.free@[i].start <= size by {
        assert(longer.free@[i].size() <= size);
    }
    let i = choose|i: int| 0 <= i < longer.free@.len() && (#[trigger] longer.free@[i]).size() == size;
    assert(longer.free@[i].end - longer.free@[i].start == size);
}

/// The lists that nothing is free in, and that one more range is free in.
pub proof fn lemma_a_total_is_the_sum_of_its_ranges(free: Seq<FreeRange>, range: FreeRange)
    ensures
        total(Seq::<FreeRange>::empty()) == 0,
        total(free.push(range)) == total(free) + (range.end - range.start),
{
    assert(free.push(range).drop_last() =~= free);
}

/// A new segment has as many zero bytes as it was asked for, all of them free in one
/// range, and is aligned as asked, to a page at least.
pub proof fn lemma_a_new_segment_is_empty_and_free(len: usize, align: usize, segment: Segment)
    requires
        call_ensures(Segment::with_alignment, (len, align), segment),
    ensures
        segment.len == len,
        align <= 4096 ==> segment.align == 4096,
        align > 4096 ==> segment.align == align,
        segment.base == 0,
        len > 0 ==> segment.store@.len() == len + segment.align - 1,
        forall|i: int| 0 <= i < segment.store@.len() ==> #[trigger] segment.store@[i] == 0,
        len == 0 ==> segment.books.free@.len() == 0,
        len > 0 ==> segment.books.free@.len() == 1 && segment.books.free@[0].start == 0
            && segment.books.free@[0].end == len,
{
}

/// A segment without a wish for its alignment is aligned to a page, and a size is
/// possible where it fits with its alignment into half of the addresses.
pub proof fn lemma_a_plain_segment_is_on_a_page(
    len: usize,
    segment: Segment,
    align: usize,
    possible: bool,
)
    requires
        call_ensures(Segment::new, (len,), segment),
        align > 0,
        call_ensures(layout_is_possible, (len, align), possible),
    ensures
        segment.len == len && segment.align == 4096,
        len > 0 ==> segment.books.free@.len() == 1 && segment.books.free@[0].start == 0
            && segment.books.free@[0].end == len,
        possible == (len == 0 || len + align - 1 <= isize::MAX),
{
}

/// A segment that is placed has its first byte on an aligned address, the lowest in
/// its memory.
pub proof fn lemma_a_placed_segment_is_aligned(segment: &mut Segment, address: usize)
    requires
        old(segment).align > 0,
        old(segment).len > 0,
        call_ensures(Segment::place, (segment, address), ()),
    ensures
        (address + final(segment).base) % old(segment).align as int == 0,
        final(segment).base < old(segment).align,
        final(segment).len == old(segment).len,
        final(segment).books == old(segment).books,
        final(segment).store@ == old(segment).store@,
{
    lemma_aligned_up(address as int, old(segment).align as int);
}

/// What is read of a segment are its bytes from the place on; what is written is there
/// and nothing else changes.
pub proof fn lemma_a_segment_is_read_and_written_in_place(
    segment: Segment,
    start: usize,
    len: usize,
    bytes: Vec<u8>,
    target: &mut Segment,
    at: usize,
    more: Vec<u8>,
    i: int,
)
    requires
        segment.base + start + len <= segment.store@.len(),
        old(target).base + at + more@.len() <= old(target).store@.len(),
        call_ensures(Segment::read, (&segment, start, len), bytes),
        call_ensures(Segment::write, (target, at, &more), ()),
    ensures
        bytes@.len() == len,
        0 <= i < len ==> bytes@[i] == segment.store@[segment.base + start + i],
        final(target).store@.len() == old(target).store@.len(),
        0 <= i < more@.len() ==> final(target).store@[old(target).base + at + i] == more@[i],
        0 <= i < old(target).store@.len() && (i < old(target).base + at || i >= old(target).base + at
            + more@.len()) ==> final(target).store@[i] == old(target).store@[i],
        final(target).books == old(target).books,
        final(target).base == old(target).base,
{
    if 0 <= i < more@.len() {
        assert(final(target).content(at as int, more@.len() as int)[i] == more@[i]);
    }
}

/// A chunk that goes back to its segment frees exactly its bytes and changes none.
pub proof fn lemma_a_released_range_is_free_again(
    segment: &mut Segment,
    start: usize,
    len: usize,
    b: int,
)
    requires
        call_ensures(Segment::release, (segment, start, len), ()),
    ensures
        is_free(final(segment).books.free@, b) <==> is_free(old(segment).books.free@, b) || start
            <= b < start + len,
        final(segment).store@ == old(segment).store@,
        final(segment).base == old(segment).base,
        final(segment).len == old(segment).len,
        total(final(segment).books.free@) == total(old(segment).books.free@) + len,
{
}

/// A request is served exactly where some free range has an aligned place for it: at
/// an aligned place, out of free bytes, which are then taken and no others. One that
/// cannot be served ends where it may not wait or could never be served, as out of
/// memory where the free bytes do not suffice and as fragmented where they would; any
/// other waits.
pub proof fn lemma_a_request_is_served_refused_or_waits(
    segment: &mut Segment,
    size: usize,
    align: usize,
    blocking: bool,
    step: AllocStep<usize>,
    left: usize,
    b: int,
)
    requires
        align > 0,
        call_ensures(native_alloc, (segment, size, align, blocking), step),
        call_ensures(SegmentBooks::available, (&old(segment).books,), left),
    ensures
        final(segment).store@ == old(segment).store@,
        final(segment).base == old(segment).base,
        final(segment).len == old(segment).len,
        step is Ready <==> exists|i: int, m: int|
            {
                &&& 0 <= i < old(segment).books.free@.len()
                &&& (#[trigger] old(segment).books.free@[i]).start <= m
                &&& #[trigger] (m % align as int) == 0
                &&& m + size <= old(segment).books.free@[i].end
            },
        step matches AllocStep::Ready(start) ==> {
            &&& start as int % align as int == 0
            &&& start + size <= old(segment).len
            &&& start <= b < start + size ==> is_free(old(segment).books.free@, b)
            &&& is_free(final(segment).books.free@, b) <==> is_free(old(segment).books.free@, b)
                && !(start <= b < start + size)
        },
        !(step is Ready) ==> final(segment).books.free@ == old(segment).books.free@,
        step is Wait ==> blocking && size <= old(segment).len,
        !(step is Ready) && blocking && size <= old(segment).len ==> step is Wait,
        step matches AllocStep::Refused(reason) ==> {
            &&& reason == 1 <==> size > old(segment).len || left < size || old(segment).len == 0
            &&& reason == 0 <==> !(size > old(segment).len || left < size || old(segment).len == 0)
        },
{
    let free = old(segment).books.free@;
    if step is Ready {
        let i = choose|i: int|
            0 <= i < free.len() && (#[trigger] free[i]).fits(size as int, align as int);
        lemma_aligned_up(free[i].start as int, align as int);
        let m = aligned_up(free[i].start as int, align as int);
        assert(free[i].start <= m && m % align as int == 0 && m + size <= free[i].end);
    }
    if exists|i: int, m: int|
        {
            &&& 0 <= i < free.len()
            &&& (#[trigger] free[i]).start <= m
            &&& #[trigger] (m % align as int) == 0
            &&& m + size <= free[i].end
        } {
        let (i, m) = choose|i: int, m: int|
            {
                &&& 0 <= i < free.len()
                &&& (#[trigger] free[i]).start <= m
                &&& #[trigger] (m % align as int) == 0
                &&& m + size <= free[i].end
            };
        lemma_aligned_up(free[i].start as int, align as int);
        assert(free[i].fits(size as int, align as int));
    }
}

/// An alignment is a power of two: byte alignment is one, and each exponent doubles.
pub proof fn lemma_an_alignment_doubles_with_its_exponent(
    small: z_alloc_alignment_t,
    big: z_alloc_alignment_t,
    a: usize,
    b: usize,
    byte: z_alloc_alignment_t,
    fits: bool,
)
    requires
        big.pow == small.pow + 1,
        call_ensures(alignment_bytes, (small,), a),
        call_ensures(alignment_bytes, (big,), b),
        call_ensures(align_byte, (), byte),
        call_ensures(alignment_fits, (big,), fits),
    ensures
        small.pow == 0 ==> a == 1,
        b == 2 * a,
        byte.pow == 0,
        fits == (big.pow < usize::BITS),
{
    vstd::arithmetic::power2::lemma2_to64();
    vstd::arithmetic::power2::lemma_pow2_unfold(big.pow as nat);
}

/// A layout is taken as it is given, where it has bytes and its alignment fits an
/// address, and is read back as it was given.
pub proof fn lemma_a_layout_is_read_back(
    slot: &mut z_owned_memory_layout_t,
    size: usize,
    alignment: z_alloc_alignment_t,
    code: ZResult,
    read: z_loaned_memory_layout_t,
    out_size: &mut usize,
    out_alignment: &mut z_alloc_alignment_t,
)
    requires
        call_ensures(z_memory_layout_new, (Some(slot), size, alignment), code),
        call_ensures(
            z_memory_layout_get_data,
            (Some(&read), Some(out_size), Some(out_alignment)),
            (),
        ),
    ensures
        code == (if size > 0 && alignment.pow < usize::BITS {
            0i8
        } else {
            -1i8
        }),
        final(slot).state is Some == (code == 0),
        code == 0 ==> final(slot).state->0.size == size && final(slot).state->0.alignment
            == alignment,
        read.state is Some ==> *final(out_size) == read.state->0.size && *final(out_alignment)
            == read.state->0.alignment,
        read.state is None ==> *final(out_size) == *old(out_size) && *final(out_alignment)
            == *old(out_alignment),
{
}

} // verus!
