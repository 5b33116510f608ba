//! The free list of a segment.
//!
//! A segment's free bytes are a list of ranges, sorted by start and never
//! overlapping. [`SegmentBooks::claim`] cuts a range out of the first entry that
//! can hold it; [`SegmentBooks::release`] puts one back and merges it with its
//! neighbours.

use vstd::arithmetic::div_mod::lemma_fundamental_div_mod;
use vstd::arithmetic::div_mod::lemma_mod_multiples_vanish;
use vstd::arithmetic::div_mod::lemma_small_mod;
use vstd::prelude::*;

verus! {

/// One free range in a segment, as `[start, end)`.
#[derive(Clone, Copy, Debug, PartialEq, Eq, Structural)]
pub struct FreeRange {
    pub start: usize,
    pub end: usize,
}

/// The least multiple of `align` that is not below `offset`.
pub open spec fn aligned_up(offset: int, align: int) -> int {
    if offset % align == 0 {
        offset
    } else {
        offset + (align - offset % align)
    }
}

impl FreeRange {
    /// The number of bytes in the range.
    pub open spec fn size(self) -> int {
        self.end - self.start
    }

    /// Whether the byte at `at` lies in the range.
    pub open spec fn holds(self, at: int) -> bool {
        self.start <= at < self.end
    }

    /// Whether `len` bytes at `align` can be cut out of the range.
    pub open spec fn fits(self, len: int, align: int) -> bool {
        aligned_up(self.start as int, align) + len <= self.end
    }
}

/// Whether a free list is sorted, disjoint and free of empty ranges.
pub open spec fn sorted_disjoint(free: Seq<FreeRange>) -> bool {
    &&& forall|i: int| 0 <= i < free.len() ==> (#[trigger] free[i]).start < free[i].end
    &&& forall|i: int, j: int|
        0 <= i < j < free.len() ==> (#[trigger] free[i]).end <= (#[trigger] free[j]).start
}

/// Whether the byte at `at` is in some range of the list.
pub open spec fn is_free(free: Seq<FreeRange>, at: int) -> bool {
    exists|i: int| 0 <= i < free.len() && (#[trigger] free[i]).holds(at)
}

/// Whether no two neighbours of the list touch.
pub open spec fn coalesced(free: Seq<FreeRange>) -> bool {
    forall|i: int, j: int|
        0 <= i < j < free.len() ==> (#[trigger] free[i]).end < (#[trigger] free[j]).start
}

/// Whether the range at `i` is the first of the list that can serve the request.
pub open spec fn is_first_fit(free: Seq<FreeRange>, len: int, align: int, i: int) -> bool {
    &&& 0 <= i < free.len()
    &&& free[i].fits(len, align)
    &&& forall|j: int| 0 <= j < i ==> !(#[trigger] free[j]).fits(len, align)
}

/// What is left of `range` in front of a chunk at `start`, and behind one that
/// ends at `end`.
pub open spec fn leftovers(range: FreeRange, start: usize, end: usize) -> Seq<FreeRange> {
    let gap = FreeRange { start: range.start, end: start };
    let rest = FreeRange { start: end, end: range.end };
    if range.start < start && end < range.end {
        seq![gap, rest]
    } else if range.start < start {
        seq![gap]
    } else if end < range.end {
        seq![rest]
    } else {
        seq![]
    }
}

/// The list with the range at `i` replaced by what a chunk `[start, end)` leaves
/// of it.
pub open spec fn carved(free: Seq<FreeRange>, i: int, start: usize, end: usize) -> Seq<
    FreeRange,
> {
    free.take(i) + leftovers(free[i], start, end) + free.skip(i + 1)
}

/// The number of bytes in a free list.
pub open spec fn total(free: Seq<FreeRange>) -> int
    decreases free.len(),
{
    if free.len() == 0 {
        0
    } else {
        total(free.drop_last()) + free.last().size()
    }
}

/// The number of ranges of the list that start below `start`: where a range that
/// starts there is inserted.
pub open spec fn insertion_point(free: Seq<FreeRange>, start: int, at: int) -> bool {
    &&& 0 <= at <= free.len()
    &&& forall|j: int| 0 <= j < at ==> (#[trigger] free[j]).start < start
    &&& forall|j: int| at <= j < free.len() ==> (#[trigger] free[j]).start >= start
}

/// The list with every run of touching ranges made one range.
pub open spec fn merged(free: Seq<FreeRange>) -> Seq<FreeRange>
    decreases free.len(),
{
    if free.len() < 2 {
        free
    } else if free[0].end == free[1].start {
        merged(seq![FreeRange { start: free[0].start, end: free[1].end }] + free.skip(2))
    } else {
        seq![free[0]] + merged(free.skip(1))
    }
}

/// The list after `range` is returned to it: the range is inserted in order, and
/// from its predecessor on every run of touching ranges becomes one.
pub open spec fn returned(free: Seq<FreeRange>, range: FreeRange, at: int) -> Seq<FreeRange> {
    let inserted = free.insert(at, range);
    let from = if at == 0 {
        0
    } else {
        at - 1
    };
    inserted.take(from) + merged(inserted.skip(from))
}

/// A segment's book-keeping.
#[derive(Debug)]
pub struct SegmentBooks {
    /// Free ranges, sorted by `start` and never overlapping.
    pub free: Vec<FreeRange>,
}

impl SegmentBooks {
    /// The ranges are sorted, disjoint and not empty.
    pub open spec fn wf(&self) -> bool {
        sorted_disjoint(self.free@)
    }

    /// First fit: the offset of a `len`-byte range aligned to `align`, or `None`
    /// where no free range can hold one. The alignment gap before the chunk and
    /// the remainder after it stay free.
    pub fn claim(&mut self, len: usize, align: usize) -> (at: Option<usize>)
        requires
            old(self).wf(),
            align > 0,
        ensures
            final(self).wf(),
            at matches Some(start) ==> {
                &&& start as int % align as int == 0
                &&& forall|b: int| start <= b < start + len ==> #[trigger] is_free(old(self).free@, b)
                &&& forall|b: int| #[trigger]
                    is_free(final(self).free@, b) <==> is_free(old(self).free@, b) && !(start <= b
                        < start + len)
                &&& total(final(self).free@) == total(old(self).free@) - len
                &&& coalesced(old(self).free@) && len > 0 ==> coalesced(final(self).free@)
            },
            match at {
                Some(start) => exists|i: int| #[trigger]
                    is_first_fit(old(self).free@, len as int, align as int, i) && {
                        &&& start == aligned_up(old(self).free@[i].start as int, align as int)
                        &&& start + len <= usize::MAX
                        &&& final(self).free@ == carved(
                            old(self).free@,
                            i,
                            start,
                            (start + len) as usize,
                        )
                    },
                None => {
                    &&& final(self).free@ == old(self).free@
                    &&& forall|i: int|
                        0 <= i < old(self).free@.len() ==> !(#[trigger] old(self).free@[i]).fits(
                            len as int,
                            align as int,
                        )
                },
            },
    {
        let ghost before = self.free@;
        let mut i: usize = 0;
        while i < self.free.len()
            invariant
                align > 0,
                before == old(self).free@,
                self.free@ == before,
                sorted_disjoint(before),
                i <= before.len(),
                forall|j: int|
                    0 <= j < i ==> !(#[trigger] before[j]).fits(len as int, align as int),
            decreases self.free.len() - i,
        {
            let range = self.free[i];
            let over: usize = range.start % align;
            let start: usize = if over == 0 {
                range.start
            } else {
                match range.start.checked_add(align - over) {
                    Some(start) => start,
                    None => {
                        i = i + 1;
                        continue;
                    },
                }
            };
            let end: usize = match start.checked_add(len) {
                Some(end) => end,
                None => {
                    i = i + 1;
                    continue;
                },
            };
            if end > range.end {
                i = i + 1;
                continue;
            }
            self.free.remove(i);
            let mut insert: usize = i;
            if start > range.start {
                self.free.insert(insert, FreeRange { start: range.start, end: start });
                insert = insert + 1;
            }
            if end < range.end {
                self.free.insert(insert, FreeRange { start: end, end: range.end });
            }
            proof {
                assert(is_first_fit(before, len as int, align as int, i as int));
                assert(end == (start + len) as usize);
                assert(self.free@ =~= carved(before, i as int, start, end));
                lemma_aligned_up(range.start as int, align as int);
                lemma_carved(before, i as int, start, end);
            }
            return Some(start);
        }
        None
    }

    /// Returns `[start, end)` to the free list, merging it with its neighbours.
    pub fn release(&mut self, start: usize, end: usize)
        requires
            old(self).wf(),
            start < end,
            forall|b: int| start <= b < end ==> !is_free(old(self).free@, b),
        ensures
            final(self).wf(),
            exists|at: int| #[trigger]
                insertion_point(old(self).free@, start as int, at) && final(self).free@
                    == returned(old(self).free@, FreeRange { start, end }, at),
            forall|b: int| #[trigger]
                is_free(final(self).free@, b) <==> is_free(old(self).free@, b) || start <= b < end,
            coalesced(old(self).free@) ==> coalesced(final(self).free@),
            total(final(self).free@) == total(old(self).free@) + (end - start),
    {
        let ghost before = self.free@;
        let ghost range = FreeRange { start, end };
        let mut at: usize = 0;
        while at < self.free.len() && self.free[at].start < start
            invariant
                self.free@ == before,
                at <= before.len(),
                forall|j: int| 0 <= j < at ==> (#[trigger] before[j]).start < start,
            decreases self.free.len() - at,
        {
            at = at + 1;
        }
        proof {
            assert(insertion_point(before, start as int, at as int)) by {
                assert forall|j: int| at <= j < before.len() implies (#[trigger] before[j]).start
                    >= start by {
                    assert(before[at as int].start >= start);
                }
            }
        }
        self.free.insert(at, FreeRange { start, end });
        let ghost inserted = self.free@;
        let from: usize = if at == 0 {
            0
        } else {
            at - 1
        };
        proof {
            lemma_insert(before, range, at as int);
            assert(inserted =~= inserted.take(from as int) + inserted.skip(from as int));
        }
        let mut i: usize = from;
        while self.free.len() - i > 1
            invariant
                i <= self.free.len(),
                returned(before, range, at as int) == self.free@.take(i as int) + merged(
                    self.free@.skip(i as int),
                ),
            decreases self.free.len() - i,
        {
            let ghost list = self.free@;
            let ghost tail = list.skip(i as int);
            if self.free[i].end == self.free[i + 1].start {
                let next = self.free[i + 1];
                self.free[i] = FreeRange { start: self.free[i].start, end: next.end };
                self.free.remove(i + 1);
                proof {
                    assert(self.free@.take(i as int) =~= list.take(i as int));
                    assert(self.free@.skip(i as int) =~= seq![
                        FreeRange { start: tail[0].start, end: tail[1].end },
                    ] + tail.skip(2));
                }
            } else {
                i = i + 1;
                proof {
                    assert(list.skip(i as int) =~= tail.skip(1));
                    assert(list.take(i as int) =~= list.take(i - 1) + seq![tail[0]]);
                    assert(list.take(i - 1) + (seq![tail[0]] + merged(tail.skip(1)))
                        =~= list.take(i as int) + merged(list.skip(i as int)));
                }
            }
        }
        proof {
            assert(self.free@.skip(i as int).len() < 2);
            assert(self.free@ =~= self.free@.take(i as int) + merged(self.free@.skip(i as int)));
            lemma_returned(before, range, at as int);
        }
    }

    /// Total free bytes.
    pub fn available(&self) -> (sum: usize)
        requires
            self.wf(),
        ensures
            sum == total(self.free@),
    {
        let mut sum: usize = 0;
        let mut i: usize = 0;
        while i < self.free.len()
            invariant
                self.wf(),
                i <= self.free.len(),
                sum == total(self.free@.take(i as int)),
                i == 0 ==> sum == 0,
                i > 0 ==> sum <= self.free@[i - 1].end,
            decreases self.free.len() - i,
        {
            let range = self.free[i];
            proof {
                assert(self.free@.take(i + 1).drop_last() =~= self.free@.take(i as int));
            }
            sum = sum + (range.end - range.start);
            i = i + 1;
        }
        proof {
            assert(self.free@.take(i as int) =~= self.free@);
        }
        sum
    }

    /// The largest single free range, or 0 where nothing is free.
    pub fn largest(&self) -> (size: usize)
        requires
            self.wf(),
        ensures
            forall|i: int| 0 <= i < self.free@.len() ==> (#[trigger] self.free@[i]).size() <= size,
            if self.free@.len() == 0 {
                size == 0
            } else {
                exists|i: int| 0 <= i < self.free@.len() && (#[trigger] self.free@[i]).size() == size
            },
    {
        let mut size: usize = 0;
        let mut i: usize = 0;
        while i < self.free.len()
            invariant
                self.wf(),
                i <= self.free.len(),
                forall|j: int| 0 <= j < i ==> (#[trigger] self.free@[j]).size() <= size,
                if i == 0 {
                    size == 0
                } else {
                    exists|j: int| 0 <= j < i && (#[trigger] self.free@[j]).size() == size
                },
            decreases self.free.len() - i,
        {
            let range = self.free[i];
            let here: usize = range.end - range.start;
            assert(self.free@[i as int].size() == here);
            if here > size {
                size = here;
            }
            i = i + 1;
        }
        size
    }
}

/// An aligned offset is a multiple of the alignment, lies less than one
/// alignment above the offset, and no smaller multiple is reached from it.
pub proof fn lemma_aligned_up(offset: int, align: int)
    requires
        0 <= offset,
        0 < align,
    ensures
        aligned_up(offset, align) % align == 0,
        offset <= aligned_up(offset, align) < offset + align,
        forall|m: int| offset <= m && #[trigger] (m % align) == 0 ==> aligned_up(offset, align) <= m,
{
    let up = aligned_up(offset, align);
    let quotient = offset / align;
    lemma_fundamental_div_mod(offset, align);
    if offset % align != 0 {
        assert(up == (quotient + 1) * align + 0) by (nonlinear_arith)
            requires
                offset == align * quotient + offset % align,
                up == offset + (align - offset % align),
        ;
        lemma_mod_multiples_vanish(quotient + 1, 0, align);
        lemma_small_mod(0, align as nat);
        assert(align * (quotient + 1) == (quotient + 1) * align) by (nonlinear_arith);
        assert forall|m: int| offset <= m && #[trigger] (m % align) == 0 implies up <= m by {
            lemma_fundamental_div_mod(m, align);
            let k = m / align;
            assert(k >= quotient + 1) by (nonlinear_arith)
                requires
                    m == align * k,
                    offset <= m,
                    offset == align * quotient + offset % align,
                    offset % align > 0,
                    align > 0,
            ;
            assert(up <= m) by (nonlinear_arith)
                requires
                    m == align * k,
                    up == (quotient + 1) * align,
                    k >= quotient + 1,
                    align > 0,
            ;
        }
    }
}

/// Cutting a chunk out of the range at `i` takes exactly the chunk's bytes, all
/// of which were free: the list stays in order, every other byte keeps its
/// state, and the total falls by the chunk's length. A list without touching
/// neighbours keeps that property unless the chunk is empty.
pub proof fn lemma_carved(free: Seq<FreeRange>, i: int, start: usize, end: usize)
    requires
        sorted_disjoint(free),
        0 <= i < free.len(),
        free[i].start <= start <= end <= free[i].end,
    ensures
        sorted_disjoint(carved(free, i, start, end)),
        forall|b: int| start <= b < end ==> #[trigger] is_free(free, b),
        forall|b: int| #[trigger]
            is_free(carved(free, i, start, end), b) <==> is_free(free, b) && !(start <= b < end),
        total(carved(free, i, start, end)) == total(free) - (end - start),
        coalesced(free) && start < end ==> coalesced(carved(free, i, start, end)),
{
    let left = leftovers(free[i], start, end);
    let list = carved(free, i, start, end);
    let n = left.len() as int;
    assert forall|k: int| 0 <= k < list.len() implies #[trigger] list[k] == (if k < i {
        free[k]
    } else if k < i + n {
        left[k - i]
    } else {
        free[k - n + 1]
    }) by {}
    assert forall|b: int| #[trigger] is_free(list, b) <==> is_free(free, b) && !(start <= b < end) by {
        if is_free(free, b) && !(start <= b < end) {
            let j = choose|j: int| 0 <= j < free.len() && (#[trigger] free[j]).holds(b);
            if j < i {
                assert(list[j].holds(b));
            } else if j > i {
                assert(list[j + n - 1].holds(b));
            } else if b < start {
                assert(list[i].holds(b));
            } else {
                assert(list[i + n - 1].holds(b));
            }
        }
        if is_free(list, b) {
            let k = choose|k: int| 0 <= k < list.len() && (#[trigger] list[k]).holds(b);
            if k < i {
                assert(free[k].holds(b));
            } else if k < i + n {
                assert(free[i].holds(b));
            } else {
                assert(free[k - n + 1].holds(b));
            }
        }
    }
    assert forall|b: int| start <= b < end implies #[trigger] is_free(free, b) by {
        assert(free[i].holds(b));
    }
    assert(free =~= free.take(i) + seq![free[i]] + free.skip(i + 1));
    lemma_total_add(free.take(i), seq![free[i]]);
    lemma_total_add(free.take(i) + seq![free[i]], free.skip(i + 1));
    lemma_total_one(free[i]);
    lemma_total_add(free.take(i), left);
    lemma_total_add(free.take(i) + left, free.skip(i + 1));
    let gap = FreeRange { start: free[i].start, end: start };
    let rest = FreeRange { start: end, end: free[i].end };
    lemma_total_one(gap);
    lemma_total_one(rest);
    if free[i].start < start && end < free[i].end {
        assert(left =~= seq![gap] + seq![rest]);
        lemma_total_add(seq![gap], seq![rest]);
    }
}

/// A list without touching neighbours is determined by its free bytes.
pub proof fn lemma_coalesced_unique(a: Seq<FreeRange>, b: Seq<FreeRange>)
    requires
        sorted_disjoint(a),
        sorted_disjoint(b),
        coalesced(a),
        coalesced(b),
        forall|x: int| #[trigger] is_free(a, x) <==> is_free(b, x),
    ensures
        a == b,
    decreases a.len(),
{
    if a.len() == 0 {
        if b.len() > 0 {
            assert(b[0].holds(b[0].start as int));
            assert(is_free(b, b[0].start as int));
            assert(is_free(a, b[0].start as int));
        }
        assert(a =~= b);
    } else if b.len() == 0 {
        assert(a[0].holds(a[0].start as int));
        assert(is_free(a, a[0].start as int));
    } else {
        assert(a[0].holds(a[0].start as int) && b[0].holds(b[0].start as int));
        assert(is_free(a, a[0].start as int) && is_free(b, b[0].start as int));
        assert(is_free(b, a[0].start as int) && is_free(a, b[0].start as int));
        assert(a[0].start == b[0].start);
        if a[0].end < b[0].end {
            assert(b[0].holds(a[0].end as int));
            assert(is_free(b, a[0].end as int));
            assert(is_free(a, a[0].end as int));
        }
        if b[0].end < a[0].end {
            assert(a[0].holds(b[0].end as int));
            assert(is_free(a, b[0].end as int));
            assert(is_free(b, b[0].end as int));
        }
        assert(a[0] == b[0]);
        let (s, t) = (a.skip(1), b.skip(1));
        lemma_first_removed(a);
        lemma_first_removed(b);
        assert forall|x: int| #[trigger] is_free(s, x) <==> is_free(t, x) by {
            assert(is_free(a, x) <==> is_free(b, x));
        }
        lemma_coalesced_unique(s, t);
        assert(a =~= seq![a[0]] + s);
        assert(b =~= seq![b[0]] + t);
    }
}

proof fn lemma_first_removed(free: Seq<FreeRange>)
    requires
        sorted_disjoint(free),
        free.len() > 0,
    ensures
        forall|x: int| #[trigger]
            is_free(free.skip(1), x) <==> is_free(free, x) && !free[0].holds(x),
{
    let rest = free.skip(1);
    assert forall|x: int| #[trigger] is_free(rest, x) <==> is_free(free, x) && !free[0].holds(
        x,
    ) by {
        if is_free(rest, x) {
            let k = choose|k: int| 0 <= k < rest.len() && (#[trigger] rest[k]).holds(x);
            assert(free[k + 1].holds(x));
        }
        if is_free(free, x) && !free[0].holds(x) {
            let k = choose|k: int| 0 <= k < free.len() && (#[trigger] free[k]).holds(x);
            assert(rest[k - 1].holds(x));
        }
    }
}

/// Releasing a chunk undoes its claim: a list without touching neighbours comes
/// back range for range.
pub proof fn lemma_release_undoes_claim(
    free: Seq<FreeRange>,
    i: int,
    start: usize,
    end: usize,
    at: int,
)
    requires
        sorted_disjoint(free),
        coalesced(free),
        0 <= i < free.len(),
        free[i].start <= start < end <= free[i].end,
        insertion_point(carved(free, i, start, end), start as int, at),
    ensures
        returned(carved(free, i, start, end), FreeRange { start, end }, at) == free,
{
    let cut = carved(free, i, start, end);
    let range = FreeRange { start, end };
    lemma_carved(free, i, start, end);
    lemma_returned(cut, range, at);
    let back = returned(cut, range, at);
    assert forall|b: int| #[trigger] is_free(back, b) <==> is_free(free, b) by {
        assert(is_free(cut, b) <==> is_free(free, b) && !(start <= b < end));
    }
    lemma_coalesced_unique(back, free);
}

/// A request for all of a free range that starts the segment is served at
/// offset 0, whatever its alignment: no byte of the segment goes to overhead.
pub proof fn lemma_whole_range_is_served(len: usize, align: int)
    requires
        0 < align,
        0 < len,
    ensures
        is_first_fit(seq![FreeRange { start: 0, end: len }], len as int, align, 0),
        aligned_up(0, align) == 0,
        carved(seq![FreeRange { start: 0, end: len }], 0, 0, len) == Seq::<FreeRange>::empty(),
{
    lemma_small_mod(0, align as nat);
    assert(carved(seq![FreeRange { start: 0, end: len }], 0, 0, len) =~= Seq::<
        FreeRange,
    >::empty());
}

proof fn lemma_total_add(a: Seq<FreeRange>, b: Seq<FreeRange>)
    ensures
        total(a + b) == total(a) + total(b),
    decreases b.len(),
{
    if b.len() == 0 {
        assert(a + b =~= a);
    } else {
        assert((a + b).drop_last() =~= a + b.drop_last());
        lemma_total_add(a, b.drop_last());
    }
}

proof fn lemma_total_one(range: FreeRange)
    ensures
        total(seq![range]) == range.size(),
{
    assert(seq![range].drop_last() =~= Seq::<FreeRange>::empty());
    assert(total(Seq::<FreeRange>::empty()) == 0);
}

/// Inserting a range that no range of the list overlaps keeps the list sorted
/// and disjoint, and adds its bytes.
proof fn lemma_insert(free: Seq<FreeRange>, range: FreeRange, at: int)
    requires
        sorted_disjoint(free),
        range.start < range.end,
        forall|b: int| range.holds(b) ==> !is_free(free, b),
        insertion_point(free, range.start as int, at),
    ensures
        sorted_disjoint(free.insert(at, range)),
        forall|b: int| #[trigger]
            is_free(free.insert(at, range), b) <==> is_free(free, b) || range.holds(b),
        total(free.insert(at, range)) == total(free) + range.size(),
{
    let list = free.insert(at, range);
    assert forall|j: int| 0 <= j < at implies (#[trigger] free[j]).end <= range.start by {
        if free[j].end > range.start {
            assert(free[j].holds(range.start as int));
            assert(range.holds(range.start as int));
        }
    }
    assert forall|j: int| at <= j < free.len() implies range.end <= (#[trigger] free[j]).start by {
        if range.end > free[j].start {
            assert(free[j].holds(free[j].start as int));
            assert(range.holds(free[j].start as int));
        }
    }
    assert forall|b: int| #[trigger] is_free(list, b) <==> is_free(free, b) || range.holds(b) by {
        if is_free(free, b) {
            let i = choose|i: int| 0 <= i < free.len() && (#[trigger] free[i]).holds(b);
            let k = if i < at {
                i
            } else {
                i + 1
            };
            assert(list[k].holds(b));
        }
        if range.holds(b) {
            assert(list[at].holds(b));
        }
        if is_free(list, b) {
            let i = choose|i: int| 0 <= i < list.len() && (#[trigger] list[i]).holds(b);
            if i < at {
                assert(free[i].holds(b));
            } else if i > at {
                assert(free[i - 1].holds(b));
            }
        }
    }
    assert(list =~= free.take(at) + seq![range] + free.skip(at));
    assert(free =~= free.take(at) + free.skip(at));
    lemma_total_add(free.take(at), free.skip(at));
    lemma_total_add(free.take(at), seq![range]);
    lemma_total_add(free.take(at) + seq![range], free.skip(at));
    lemma_total_one(range);
}

/// Merging keeps the free bytes, the order and the first start, and leaves no
/// two neighbours touching.
proof fn lemma_merged(free: Seq<FreeRange>)
    requires
        sorted_disjoint(free),
    ensures
        sorted_disjoint(merged(free)),
        coalesced(merged(free)),
        forall|b: int| #[trigger] is_free(merged(free), b) <==> is_free(free, b),
        total(merged(free)) == total(free),
        merged(free).len() > 0 <==> free.len() > 0,
        free.len() > 0 ==> merged(free)[0].start == free[0].start,
        free.len() > 0 ==> free[0].end <= merged(free)[0].end,
    decreases free.len(),
{
    if free.len() < 2 {
    } else if free[0].end == free[1].start {
        let one = FreeRange { start: free[0].start, end: free[1].end };
        let next = seq![one] + free.skip(2);
        assert forall|b: int| #[trigger] is_free(next, b) <==> is_free(free, b) by {
            if is_free(free, b) {
                let i = choose|i: int| 0 <= i < free.len() && (#[trigger] free[i]).holds(b);
                if i < 2 {
                    assert(next[0].holds(b));
                } else {
                    assert(next[i - 1].holds(b));
                }
            }
            if is_free(next, b) {
                let i = choose|i: int| 0 <= i < next.len() && (#[trigger] next[i]).holds(b);
                if i == 0 {
                    assert(free[0].holds(b) || free[1].holds(b));
                } else {
                    assert(free[i + 1].holds(b));
                }
            }
        }
        assert(free =~= seq![free[0]] + seq![free[1]] + free.skip(2));
        lemma_total_add(seq![free[0]], seq![free[1]]);
        lemma_total_add(seq![free[0]] + seq![free[1]], free.skip(2));
        lemma_total_add(seq![one], free.skip(2));
        lemma_total_one(free[0]);
        lemma_total_one(free[1]);
        lemma_total_one(one);
        lemma_merged(next);
    } else {
        let rest = free.skip(1);
        lemma_merged(rest);
        let list = merged(free);
        assert(list =~= seq![free[0]] + merged(rest));
        assert forall|j: int| 1 <= j < list.len() implies free[0].end < (#[trigger] list[j]).start by {
            assert(list[j] == merged(rest)[j - 1]);
            assert(merged(rest)[0].start == free[1].start);
            if j > 1 {
                assert(merged(rest)[0].end < merged(rest)[j - 1].start);
            }
        }
        assert forall|b: int| #[trigger] is_free(list, b) <==> is_free(free, b) by {
            assert(is_free(merged(rest), b) <==> is_free(rest, b));
            if is_free(free, b) {
                let i = choose|i: int| 0 <= i < free.len() && (#[trigger] free[i]).holds(b);
                if i == 0 {
                    assert(list[0].holds(b));
                } else {
                    assert(rest[i - 1].holds(b));
                    let k = choose|k: int|
                        0 <= k < merged(rest).len() && (#[trigger] merged(rest)[k]).holds(b);
                    assert(list[k + 1].holds(b));
                }
            }
            if is_free(list, b) {
                let i = choose|i: int| 0 <= i < list.len() && (#[trigger] list[i]).holds(b);
                if i == 0 {
                    assert(free[0].holds(b));
                } else {
                    assert(merged(rest)[i - 1].holds(b));
                    let k = choose|k: int| 0 <= k < rest.len() && (#[trigger] rest[k]).holds(b);
                    assert(free[k + 1].holds(b));
                }
            }
        }
        assert(free =~= seq![free[0]] + rest);
        lemma_total_add(seq![free[0]], rest);
        lemma_total_add(seq![free[0]], merged(rest));
    }
}

/// Returning a range keeps the list in order and adds exactly its bytes.
proof fn lemma_returned(free: Seq<FreeRange>, range: FreeRange, at: int)
    requires
        sorted_disjoint(free),
        range.start < range.end,
        forall|b: int| range.holds(b) ==> !is_free(free, b),
        insertion_point(free, range.start as int, at),
    ensures
        sorted_disjoint(returned(free, range, at)),
        forall|b: int| #[trigger]
            is_free(returned(free, range, at), b) <==> is_free(free, b) || range.holds(b),
        coalesced(free) ==> coalesced(returned(free, range, at)),
        total(returned(free, range, at)) == total(free) + range.size(),
{
    let inserted = free.insert(at, range);
    lemma_insert(free, range, at);
    let from = if at == 0 {
        0
    } else {
        at - 1
    };
    let head = inserted.take(from);
    let tail = inserted.skip(from);
    let list = returned(free, range, at);
    lemma_merged(tail);
    let joined = merged(tail);
    assert(list =~= head + joined);
    assert(tail.len() > 0);
    assert forall|i: int, j: int| 0 <= i < j < list.len() implies (#[trigger] list[i]).end <= (
    #[trigger] list[j]).start && (coalesced(free) ==> list[i].end < list[j].start) by {
        if j < from {
            assert(list[i] == free[i] && list[j] == free[j]);
        } else if i < from {
            assert(list[i] == inserted[i] && inserted[i] == free[i]);
            assert(joined[0].start == tail[0].start && tail[0] == inserted[from]);
            assert(inserted[from] == free[from]);
            assert(list[j] == joined[j - from]);
            if j > from {
                assert(joined[0].end < joined[j - from].start);
            }
        } else {
            assert(list[i] == joined[i - from] && list[j] == joined[j - from]);
        }
    }
    assert forall|b: int| #[trigger] is_free(list, b) <==> is_free(inserted, b) by {
        assert(is_free(joined, b) <==> is_free(tail, b));
        if is_free(inserted, b) {
            let i = choose|i: int| 0 <= i < inserted.len() && (#[trigger] inserted[i]).holds(b);
            if i < from {
                assert(list[i].holds(b));
            } else {
                assert(tail[i - from].holds(b));
                let k = choose|k: int| 0 <= k < joined.len() && (#[trigger] joined[k]).holds(b);
                assert(list[k + from].holds(b));
            }
        }
        if is_free(list, b) {
            let i = choose|i: int| 0 <= i < list.len() && (#[trigger] list[i]).holds(b);
            if i < from {
                assert(inserted[i].holds(b));
            } else {
                assert(joined[i - from].holds(b));
                let k = choose|k: int| 0 <= k < tail.len() && (#[trigger] tail[k]).holds(b);
                assert(inserted[k + from].holds(b));
            }
        }
    }
    assert(inserted =~= head + tail);
    lemma_total_add(head, tail);
    lemma_total_add(head, joined);
}

} // verus!
