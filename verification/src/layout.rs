//! The dynamic-height layout: heterogeneous segment heights turned
//! into a gapless vertical partition of the viewport.  No region is
//! assigned before every height is known.

use vstd::prelude::*;

verus! {

/// A contiguous slice of the viewport assigned to one segment for one
/// paint pass.
#[derive(Clone, Copy, Debug, PartialEq, Eq, Structural)]
pub struct Region {
    pub y: u16,
    pub height: u16,
}

/// The sum of a height list.
pub open spec fn spec_sum_heights(hs: Seq<u16>) -> int
    decreases hs.len(),
{
    if hs.len() == 0 {
        0
    } else {
        spec_sum_heights(hs.drop_last()) + hs.last()
    }
}

/// The regions a height list induces: region `i` starts where the
/// heights before it end.
pub open spec fn spec_regions_of(hs: Seq<u16>) -> Seq<Region> {
    Seq::new(
        hs.len(),
        |i: int|
            Region { y: spec_sum_heights(hs.subrange(0, i)) as u16, height: hs[i] },
    )
}

/// A prefix of a height list sums to no more than the whole.
pub proof fn lemma_sum_prefix_le(hs: Seq<u16>, i: int)
    requires
        0 <= i <= hs.len(),
    ensures
        spec_sum_heights(hs.subrange(0, i)) <= spec_sum_heights(hs),
    decreases hs.len() - i,
{
    if i < hs.len() {
        assert(hs.subrange(0, i + 1).drop_last() =~= hs.subrange(0, i));
        assert(hs.subrange(0, i + 1).last() == hs[i]);
        lemma_sum_prefix_le(hs, i + 1);
    } else {
        assert(hs.subrange(0, i) =~= hs);
    }
}

/// The regions of a height list are a gapless partition: as many
/// regions as heights, each of its own height, the first at the top,
/// each further one starting exactly where the one before it ends, and
/// the last one ending at the sum of all heights.
pub proof fn lemma_regions_partition(hs: Seq<u16>)
    requires
        spec_sum_heights(hs) <= u16::MAX,
    ensures
        spec_regions_of(hs).len() == hs.len(),
        forall|i: int|
            0 <= i < hs.len() ==> (#[trigger] spec_regions_of(hs)[i]).height == hs[i],
        hs.len() > 0 ==> spec_regions_of(hs)[0].y == 0,
        forall|i: int|
            0 <= i < hs.len() - 1 ==> (#[trigger] spec_regions_of(hs)[i + 1]).y
                == spec_regions_of(hs)[i].y + spec_regions_of(hs)[i].height,
        hs.len() > 0 ==> spec_regions_of(hs).last().y + spec_regions_of(hs).last().height
            == spec_sum_heights(hs),
{
    assert forall|i: int| 0 <= i <= hs.len() implies 0 <= #[trigger] spec_sum_heights(
        hs.subrange(0, i),
    ) <= u16::MAX by {
        lemma_sum_nonneg(hs.subrange(0, i));
        lemma_sum_prefix_le(hs, i);
    }
    if hs.len() > 0 {
        assert(hs.subrange(0, 0) =~= Seq::<u16>::empty());
    }
    assert forall|i: int| 0 <= i < hs.len() - 1 implies (#[trigger] spec_regions_of(hs)[i
        + 1]).y == spec_regions_of(hs)[i].y + spec_regions_of(hs)[i].height by {
        assert(hs.subrange(0, i + 1).drop_last() =~= hs.subrange(0, i));
        assert(hs.subrange(0, i + 1).last() == hs[i]);
    }
    if hs.len() > 0 {
        let n = hs.len() as int;
        assert(hs.subrange(0, n - 1) =~= hs.drop_last());
        assert(hs.subrange(0, n) =~= hs);
    }
}

/// A height list sums to something non-negative.
pub proof fn lemma_sum_nonneg(hs: Seq<u16>)
    ensures
        spec_sum_heights(hs) >= 0,
    decreases hs.len(),
{
    if hs.len() > 0 {
        lemma_sum_nonneg(hs.drop_last());
    }
}

/// Partitions the viewport: one region per height, in order, each
/// starting where the heights before it end.
pub fn compute_regions(heights: &Vec<u16>) -> (r: Vec<Region>)
    requires
        spec_sum_heights(heights@) <= u16::MAX,
    ensures
        r@ == spec_regions_of(heights@),
{
    let n = heights.len();
    let mut regions: Vec<Region> = Vec::new();
    let mut y: u16 = 0;
    let mut i: usize = 0;
    proof {
        assert(heights@.subrange(0, 0) =~= Seq::<u16>::empty());
    }
    while i < n
        invariant
            n == heights@.len(),
            i <= n,
            spec_sum_heights(heights@) <= u16::MAX,
            y == spec_sum_heights(heights@.subrange(0, i as int)),
            regions@.len() == i,
            forall|k: int| 0 <= k < i ==> regions@[k] == spec_regions_of(heights@)[k],
        decreases n - i,
    {
        proof {
            assert(heights@.subrange(0, i + 1).drop_last() =~= heights@.subrange(0, i as int));
            assert(heights@.subrange(0, i + 1).last() == heights@[i as int]);
            lemma_sum_prefix_le(heights@, i + 1);
            lemma_sum_nonneg(heights@.subrange(0, i as int));
        }
        let h = heights[i];
        regions.push(Region { y, height: h });
        y = y + h;
        i = i + 1;
    }
    proof {
        assert(regions@ =~= spec_regions_of(heights@));
    }
    regions
}

} // verus!
