//! A linear allocator that carves consecutive index ranges out of one
//! growing index space.

use crate::error::LayoutError;
use core::ops::Range;
use vstd::prelude::*;

verus! {

/// Whether `ranges`, in the order given, tile `[0, total)`: the first range
/// starts at 0, each next one starts where the one before ends, and the
/// last one ends at `total`.
pub open spec fn tiles(ranges: Seq<(int, int)>, total: int) -> bool {
    &&& forall|k: int| 0 <= k < ranges.len() ==> (#[trigger] ranges[k]).0 <= ranges[k].1
    &&& forall|k: int|
        0 <= k < ranges.len() ==> (#[trigger] ranges[k]).0 == (if k == 0 {
            0
        } else {
            ranges[k - 1].1
        })
    &&& total == (if ranges.len() == 0 {
        0
    } else {
        ranges.last().1
    })
}

/// Whether index `x` lies in one of `ranges`.
pub open spec fn covered(ranges: Seq<(int, int)>, x: int) -> bool {
    exists|k: int| 0 <= k < ranges.len() && (#[trigger] ranges[k]).0 <= x < ranges[k].1
}

/// Carves disjoint ranges from a linear index space, front to back.
pub struct TakeCursor {
    idx: usize,
    taken: Ghost<Seq<(int, int)>>,
}

impl TakeCursor {
    /// The index at which the next range will start; also the number of
    /// elements handed out so far.
    pub closed spec fn position(&self) -> nat {
        self.idx as nat
    }

    /// The ranges handed out so far, as `(start, end)` pairs in the order
    /// in which they were taken.
    pub closed spec fn ranges(&self) -> Seq<(int, int)> {
        self.taken@
    }

    /// The ranges handed out so far tile `[0, position)`. Every cursor is
    /// well formed.
    #[verifier::type_invariant]
    pub closed spec fn wf(&self) -> bool {
        tiles(self.taken@, self.idx as int)
    }

    /// Create a new cursor starting at index `0`.
    pub fn new() -> (c: Self)
        ensures
            c.wf(),
            c.position() == 0,
            c.ranges() == Seq::<(int, int)>::empty(),
    {
        TakeCursor { idx: 0, taken: Ghost(Seq::empty()) }
    }

    /// Reserve the next `n` slots and return their range. Fails with
    /// [`LayoutError::Overflow`], leaving the cursor as it was, exactly when
    /// the end of the range would exceed the largest index.
    pub fn take_range(&mut self, n: usize) -> (r: Result<Range<usize>, LayoutError>)
        ensures
            final(self).wf(),
            old(self).position() + n <= usize::MAX ==> {
                &&& r matches Ok(range)
                &&& range.start == old(self).position()
                &&& range.end == old(self).position() + n
                &&& final(self).position() == old(self).position() + n
                &&& final(self).ranges() == old(self).ranges().push(
                    (old(self).position() as int, old(self).position() + n),
                )
            },
            old(self).position() + n > usize::MAX ==> {
                &&& r == Err::<Range<usize>, LayoutError>(LayoutError::Overflow)
                &&& final(self).position() == old(self).position()
                &&& final(self).ranges() == old(self).ranges()
            },
    {
        proof {
            use_type_invariant(&*self);
        }
        let start = self.idx;
        match start.checked_add(n) {
            Some(end) => {
                *self = TakeCursor {
                    idx: end,
                    taken: Ghost(self.taken@.push((start as int, end as int))),
                };
                Ok(start..end)
            },
            None => Err(LayoutError::Overflow),
        }
    }

    /// Finish carving ranges and report the total footprint that was consumed.
    pub fn finish(self) -> (total: usize)
        ensures
            total == self.position(),
    {
        self.idx
    }
}

/// The ranges that one cursor has handed out are ordered and pairwise
/// disjoint, and their union is exactly `[0, position)`.
pub proof fn lemma_ranges_partition(c: TakeCursor)
    requires
        c.wf(),
    ensures
        forall|k: int|
            0 <= k < c.ranges().len() ==> 0 <= (#[trigger] c.ranges()[k]).0 <= c.ranges()[k].1
                <= c.position(),
        forall|i: int, j: int|
            0 <= i < j < c.ranges().len() ==> (#[trigger] c.ranges()[i]).1 <= (
            #[trigger] c.ranges()[j]).0,
        forall|x: int| 0 <= x < c.position() <==> #[trigger] covered(c.ranges(), x),
{
    lemma_tiles_partition(c.ranges(), c.position() as int);
}

/// What [`lemma_ranges_partition`] says, of any sequence that tiles
/// `[0, total)`.
pub proof fn lemma_tiles_partition(ranges: Seq<(int, int)>, total: int)
    requires
        tiles(ranges, total),
    ensures
        0 <= total,
        forall|k: int| 0 <= k < ranges.len() ==> 0 <= (#[trigger] ranges[k]).0 <= ranges[k].1 <= total,
        forall|i: int, j: int|
            0 <= i < j < ranges.len() ==> (#[trigger] ranges[i]).1 <= (#[trigger] ranges[j]).0,
        forall|x: int| 0 <= x < total <==> #[trigger] covered(ranges, x),
    decreases ranges.len(),
{
    if ranges.len() > 0 {
        let front = ranges.drop_last();
        let last = ranges.last();
        assert(forall|k: int| 0 <= k < front.len() ==> front[k] == ranges[k]);
        assert(tiles(front, last.0)) by {
            if front.len() > 0 {
                assert(ranges[ranges.len() - 1].0 == ranges[ranges.len() - 2].1);
                assert(front.last() == ranges[ranges.len() - 2]);
            }
        }
        lemma_tiles_partition(front, last.0);
        assert forall|x: int| 0 <= x < total implies #[trigger] covered(ranges, x) by {
            if x < last.0 {
                assert(covered(front, x));
                let k = choose|k: int|
                    0 <= k < front.len() && (#[trigger] front[k]).0 <= x < front[k].1;
                assert(ranges[k].0 <= x < ranges[k].1);
            } else {
                assert(ranges[ranges.len() - 1].0 <= x < ranges[ranges.len() - 1].1);
            }
        }
        assert forall|i: int, j: int| 0 <= i < j < ranges.len() implies (#[trigger] ranges[i]).1 <= (
        #[trigger] ranges[j]).0 by {
            if j < front.len() {
                assert(front[i].1 <= front[j].0);
            } else {
                assert(front[i].1 <= last.0);
            }
        }
    }
}

} // verus!
