//! The segment pipeline's composition step.  Acquisition runs one
//! concurrent task per segment and hands every outcome — a snapshot,
//! or a failure with its segment's name — back in submission order;
//! here the heights are computed, the viewport partitioned, and every
//! segment's lines laid into one frame.  A failed segment renders as a
//! one-line placeholder instead of blanking the whole dashboard.

use vstd::prelude::*;
use crate::command::{CommandInfo, CommandSegmentRenderer};
use crate::disk::{DiskInfo, DiskSegmentRenderer};
use crate::docker::{DockerInfo, DockerSegmentRenderer};
use crate::heading::{HeadingInfo, HeadingSegmentRenderer};
use crate::ip::{IpInfo, IpSegmentRenderer};
use crate::layout::{compute_regions, spec_regions_of, spec_sum_heights, Region};
use crate::load::{LoadInfo, LoadSegmentRenderer};
use crate::memory::{MemoryInfo, MemorySegmentRenderer};
use crate::os::{OsInfo, OsSegmentRenderer};
use crate::quote::{QuoteInfo, QuoteSegmentRenderer};
use crate::render::{label_line, spec_label_line, SegmentRenderer};
use crate::temperatures::{TemperaturesInfo, TemperaturesSegmentRenderer};
use crate::updates::{UpdatesInfo, UpdatesSegmentRenderer};
use crate::uptime::{UptimeInfo, UptimeSegmentRenderer};
use crate::user::{UserInfo, UserSegmentRenderer};

verus! {

/// One segment's snapshot, over the fixed, closed set of segment
/// kinds.
pub enum SegmentInfo {
    Heading(HeadingInfo),
    Quote(QuoteInfo),
    User(UserInfo),
    Ip(IpInfo),
    Os(OsInfo),
    Uptime(UptimeInfo),
    Load(LoadInfo),
    Temperatures(TemperaturesInfo),
    Updates(UpdatesInfo),
    Disk(DiskInfo),
    Memory(MemoryInfo),
    Docker(DockerInfo),
    Command(CommandInfo),
}

/// The lines a snapshot renders to, by its kind's own renderer.
pub open spec fn spec_segment_lines(si: SegmentInfo) -> Seq<Seq<char>> {
    match si {
        SegmentInfo::Heading(info) => (HeadingSegmentRenderer { info }).spec_lines(),
        SegmentInfo::Quote(info) => (QuoteSegmentRenderer { info }).spec_lines(),
        SegmentInfo::User(info) => (UserSegmentRenderer { info }).spec_lines(),
        SegmentInfo::Ip(info) => (IpSegmentRenderer { info }).spec_lines(),
        SegmentInfo::Os(info) => (OsSegmentRenderer { info }).spec_lines(),
        SegmentInfo::Uptime(info) => (UptimeSegmentRenderer { info }).spec_lines(),
        SegmentInfo::Load(info) => (LoadSegmentRenderer { info }).spec_lines(),
        SegmentInfo::Temperatures(info) => (TemperaturesSegmentRenderer { info }).spec_lines(),
        SegmentInfo::Updates(info) => (UpdatesSegmentRenderer { info }).spec_lines(),
        SegmentInfo::Disk(info) => (DiskSegmentRenderer { info }).spec_lines(),
        SegmentInfo::Memory(info) => (MemorySegmentRenderer { info }).spec_lines(),
        SegmentInfo::Docker(info) => (DockerSegmentRenderer { info }).spec_lines(),
        SegmentInfo::Command(info) => (CommandSegmentRenderer { info }).spec_lines(),
    }
}

/// One segment's acquisition outcome: its snapshot, or the failure of
/// the named segment.
pub enum SegmentOutcome {
    Ready(SegmentInfo),
    Failed { label: String, reason: String },
}

/// The lines an outcome renders to: a snapshot by its renderer, a
/// failure as a one-line placeholder naming the reason.
pub open spec fn spec_outcome_lines(o: SegmentOutcome) -> Seq<Seq<char>> {
    match o {
        SegmentOutcome::Ready(si) => spec_segment_lines(si),
        SegmentOutcome::Failed { label, reason } => seq![
            spec_label_line(label@, "unavailable: "@ + reason@),
        ],
    }
}

/// An outcome's height: the number of lines it renders to.
pub open spec fn spec_outcome_height(o: SegmentOutcome) -> nat {
    spec_outcome_lines(o).len()
}

/// The lines of a whole frame: every outcome's lines, in submission
/// order.
pub open spec fn spec_frame_lines(os: Seq<SegmentOutcome>) -> Seq<Seq<char>>
    decreases os.len(),
{
    if os.len() == 0 {
        Seq::empty()
    } else {
        spec_frame_lines(os.drop_last()) + spec_outcome_lines(os.last())
    }
}

/// The total height of a frame: the sum of its outcomes' heights.
pub open spec fn spec_total_height(os: Seq<SegmentOutcome>) -> int
    decreases os.len(),
{
    if os.len() == 0 {
        0
    } else {
        spec_total_height(os.drop_last()) + spec_outcome_height(os.last())
    }
}

/// The height list a frame's regions are computed from.
pub open spec fn spec_heights_of(os: Seq<SegmentOutcome>) -> Seq<u16> {
    Seq::new(os.len(), |i: int| spec_outcome_height(os[i]) as u16)
}

/// One composed frame: the regions, the lines, and the viewport height
/// they fill exactly.
pub struct Frame {
    pub regions: Vec<Region>,
    pub lines: Vec<String>,
    pub total_height: u16,
}

/// What composition promises of a frame built from these outcomes.
pub open spec fn spec_frame_matches(f: Frame, os: Seq<SegmentOutcome>) -> bool {
    &&& f.lines@.map_values(|x: String| x@) == spec_frame_lines(os)
    &&& f.regions@ == spec_regions_of(spec_heights_of(os))
    &&& f.total_height == spec_total_height(os)
}

/// Renders one snapshot by its kind's renderer.
fn render_segment(si: SegmentInfo) -> (r: Vec<String>)
    ensures
        r@.map_values(|x: String| x@) == spec_segment_lines(si),
{
    match si {
        SegmentInfo::Heading(info) => HeadingSegmentRenderer::new(info).render_lines(),
        SegmentInfo::Quote(info) => QuoteSegmentRenderer::new(info).render_lines(),
        SegmentInfo::User(info) => UserSegmentRenderer::new(info).render_lines(),
        SegmentInfo::Ip(info) => IpSegmentRenderer::new(info).render_lines(),
        SegmentInfo::Os(info) => OsSegmentRenderer::new(info).render_lines(),
        SegmentInfo::Uptime(info) => UptimeSegmentRenderer::new(info).render_lines(),
        SegmentInfo::Load(info) => LoadSegmentRenderer::new(info).render_lines(),
        SegmentInfo::Temperatures(info) => TemperaturesSegmentRenderer::new(
            info,
        ).render_lines(),
        SegmentInfo::Updates(info) => UpdatesSegmentRenderer::new(info).render_lines(),
        SegmentInfo::Disk(info) => DiskSegmentRenderer::new(info).render_lines(),
        SegmentInfo::Memory(info) => MemorySegmentRenderer::new(info).render_lines(),
        SegmentInfo::Docker(info) => DockerSegmentRenderer::new(info).render_lines(),
        SegmentInfo::Command(info) => CommandSegmentRenderer::new(info).render_lines(),
    }
}

/// Renders one outcome.
fn render_outcome(o: SegmentOutcome) -> (r: Vec<String>)
    ensures
        r@.map_values(|x: String| x@) == spec_outcome_lines(o),
{
    match o {
        SegmentOutcome::Ready(si) => render_segment(si),
        SegmentOutcome::Failed { label, reason } => {
            let mut content = String::new();
            content.append("unavailable: ");
            content.append(reason.as_str());
            assert(content@ =~= "unavailable: "@ + reason@);
            let mut v: Vec<String> = Vec::new();
            v.push(label_line(label.as_str(), content.as_str()));
            proof {
                assert(v@.map_values(|x: String| x@) =~= seq![
                    spec_label_line(label@, "unavailable: "@ + reason@),
                ]);
            }
            v
        },
    }
}

/// Every prefix of the outcomes is at most the whole frame's height.
pub proof fn lemma_total_prefix_le(os: Seq<SegmentOutcome>, i: int)
    requires
        0 <= i <= os.len(),
    ensures
        spec_total_height(os.subrange(0, i)) <= spec_total_height(os),
    decreases os.len() - i,
{
    if i < os.len() {
        assert(os.subrange(0, i + 1).drop_last() =~= os.subrange(0, i));
        assert(os.subrange(0, i + 1).last() == os[i]);
        lemma_total_prefix_le(os, i + 1);
    } else {
        assert(os.subrange(0, i) =~= os);
    }
}

/// A frame's height is never negative.
pub proof fn lemma_total_nonneg(os: Seq<SegmentOutcome>)
    ensures
        spec_total_height(os) >= 0,
    decreases os.len(),
{
    if os.len() > 0 {
        lemma_total_nonneg(os.drop_last());
    }
}

/// A frame has exactly as many lines as its total height: the regions
/// sum to the lines with no gap and no overlap.
pub proof fn lemma_frame_lines_len(os: Seq<SegmentOutcome>)
    ensures
        spec_frame_lines(os).len() == spec_total_height(os),
    decreases os.len(),
{
    if os.len() > 0 {
        lemma_frame_lines_len(os.drop_last());
    }
}

/// The height list matches the outcome heights whenever the total fits
/// the viewport, and sums to the total.
pub proof fn lemma_heights_faithful(os: Seq<SegmentOutcome>)
    requires
        spec_total_height(os) <= u16::MAX,
    ensures
        forall|i: int|
            0 <= i < os.len() ==> #[trigger] spec_heights_of(os)[i] == spec_outcome_height(
                os[i],
            ),
        spec_sum_heights(spec_heights_of(os)) == spec_total_height(os),
    decreases os.len(),
{
    assert forall|i: int| 0 <= i < os.len() implies #[trigger] spec_heights_of(os)[i]
        == spec_outcome_height(os[i]) by {
        assert(os.subrange(0, i + 1).drop_last() =~= os.subrange(0, i));
        assert(os.subrange(0, i + 1).last() == os[i]);
        lemma_total_nonneg(os.subrange(0, i));
        lemma_total_prefix_le(os, i + 1);
    }
    if os.len() > 0 {
        assert(os.drop_last().len() < os.len());
        assert(spec_total_height(os.drop_last()) <= spec_total_height(os)) by {
            assert(os.subrange(0, os.len() - 1) =~= os.drop_last());
            lemma_total_prefix_le(os, os.len() - 1);
        }
        lemma_heights_faithful(os.drop_last());
        assert(spec_heights_of(os).drop_last() =~= spec_heights_of(os.drop_last()));
    }
}

/// Composes the frame: each outcome rendered once, in submission
/// order, the viewport sized to the sum of heights and partitioned
/// into one region per segment.  Nothing is composed when the heights
/// outgrow the viewport's range.
pub fn compose_frame(outcomes: Vec<SegmentOutcome>) -> (r: Option<Frame>)
    ensures
        r is Some <==> spec_total_height(outcomes@) <= u16::MAX,
        r matches Some(f) ==> spec_frame_matches(f, outcomes@),
{
    let ghost os = outcomes@;
    let ghost n = os.len();
    let mut rest = outcomes;
    let count: usize = rest.len();
    let mut lines: Vec<String> = Vec::new();
    let mut heights: Vec<u16> = Vec::new();
    let mut total: u16 = 0;
    let mut i: usize = 0;
    proof {
        assert(rest@ =~= os.subrange(0, n as int));
        assert(os.subrange(0, 0) =~= Seq::<SegmentOutcome>::empty());
        assert(lines@.map_values(|x: String| x@) =~= Seq::<Seq<char>>::empty());
        assert(heights@ =~= spec_heights_of(os.subrange(0, 0)));
    }
    while rest.len() > 0
        invariant
            os == outcomes@,
            n == os.len(),
            n == count as int,
            i as int + rest@.len() == n,
            rest@ == os.subrange(i as int, n as int),
            lines@.map_values(|x: String| x@) == spec_frame_lines(os.subrange(0, i as int)),
            heights@ == spec_heights_of(os.subrange(0, i as int)),
            total == spec_total_height(os.subrange(0, i as int)),
        decreases rest@.len(),
    {
        let ghost prev_lines = lines@.map_values(|x: String| x@);
        let ghost prev_heights = heights@;
        proof {
            assert(os.subrange(0, i + 1).drop_last() =~= os.subrange(0, i as int));
            assert(os.subrange(0, i + 1).last() == os[i as int]);
            assert(rest@[0] == os[i as int]);
        }
        let o = rest.remove(0);
        proof {
            assert(rest@ =~= os.subrange(i + 1, n as int));
        }
        let mut block = render_outcome(o);
        let h = block.len();
        proof {
            assert(h as int == spec_outcome_height(os[i as int]));
        }
        if h > (u16::MAX as usize) - (total as usize) {
            proof {
                assert(total as int + h as int > u16::MAX as int);
                assert(spec_total_height(os.subrange(0, i + 1)) == total + h);
                lemma_total_prefix_le(os, i + 1);
                assert(spec_total_height(os) > u16::MAX);
            }
            return Option::None;
        }
        heights.push(h as u16);
        total = total + (h as u16);
        lines.append(&mut block);
        i = i + 1;
        proof {
            assert(lines@.map_values(|x: String| x@) =~= prev_lines + spec_outcome_lines(
                os[i - 1],
            ));
            assert(heights@ =~= spec_heights_of(os.subrange(0, i as int)));
        }
    }
    proof {
        assert(os.subrange(0, n as int) =~= os);
        lemma_heights_faithful(os);
    }
    let regions = compute_regions(&heights);
    Option::Some(Frame { regions, lines, total_height: total })
}

/// Two frames composed from the same outcomes are identical, byte for
/// byte: composition is a pure function of the snapshots.
pub proof fn lemma_compose_deterministic(f1: Frame, f2: Frame, os: Seq<SegmentOutcome>)
    requires
        spec_frame_matches(f1, os),
        spec_frame_matches(f2, os),
    ensures
        f1.lines@.map_values(|x: String| x@) == f2.lines@.map_values(|x: String| x@),
        f1.regions@ == f2.regions@,
        f1.total_height == f2.total_height,
{
}

/// The composed frame is a gapless partition of the viewport: one
/// region per outcome, each of its outcome's height, stacked from the
/// top with no gap and no overlap, together exactly covering the
/// frame's lines.
pub proof fn lemma_frame_partition(f: Frame, os: Seq<SegmentOutcome>)
    requires
        spec_frame_matches(f, os),
        spec_total_height(os) <= u16::MAX,
    ensures
        f.regions@.len() == os.len(),
        f.lines@.len() == f.total_height,
        forall|i: int|
            0 <= i < os.len() ==> (#[trigger] f.regions@[i]).height == spec_outcome_height(
                os[i],
            ),
        os.len() > 0 ==> f.regions@[0].y == 0,
        forall|i: int|
            0 <= i < os.len() - 1 ==> (#[trigger] f.regions@[i + 1]).y == f.regions@[i].y
                + f.regions@[i].height,
        os.len() > 0 ==> f.regions@.last().y + f.regions@.last().height == f.total_height,
{
    lemma_frame_lines_len(os);
    lemma_heights_faithful(os);
    crate::layout::lemma_regions_partition(spec_heights_of(os));
}

/// Submission slot `i` appears among the completed outcomes.
pub open spec fn spec_covers(completed: Seq<(usize, SegmentOutcome)>, i: int) -> bool {
    exists|j: int| 0 <= j < completed.len() && (#[trigger] completed[j]).0 == i
}

/// Puts concurrently completed outcomes back in submission order:
/// whatever order completion delivered them in, each outcome returns
/// to its own submission slot.
pub fn reassemble(completed: Vec<(usize, SegmentOutcome)>) -> (r: Vec<SegmentOutcome>)
    requires
        forall|j: int|
            0 <= j < completed@.len() ==> (#[trigger] completed@[j]).0 < completed@.len(),
        forall|j: int, k: int|
            0 <= j < k < completed@.len() ==> (#[trigger] completed@[j]).0 != (
            #[trigger] completed@[k]).0,
        forall|i: int| 0 <= i < completed@.len() ==> #[trigger] spec_covers(completed@, i),
    ensures
        r@.len() == completed@.len(),
        forall|j: int|
            0 <= j < completed@.len() ==> r@[(#[trigger] completed@[j]).0 as int]
                == completed@[j].1,
{
    let ghost orig = completed@;
    let n = completed.len();
    let mut remaining = completed;
    let mut slots: Vec<Option<SegmentOutcome>> = Vec::new();
    let mut i: usize = 0;
    while i < n
        invariant
            i <= n,
            slots@.len() == i,
        decreases n - i,
    {
        slots.push(Option::None);
        i = i + 1;
    }
    let mut m: usize = n;
    proof {
        assert(remaining@ =~= orig.subrange(0, n as int));
    }
    while m > 0
        invariant
            m <= n,
            n == orig.len(),
            slots@.len() == n,
            m == remaining@.len(),
            remaining@ == orig.subrange(0, m as int),
            forall|j: int|
                0 <= j < orig.len() ==> (#[trigger] orig[j]).0 < orig.len(),
            forall|j: int, k: int|
                0 <= j < k < orig.len() ==> (#[trigger] orig[j]).0 != (#[trigger] orig[k]).0,
            forall|j: int|
                m <= j < orig.len() ==> slots@[(#[trigger] orig[j]).0 as int] == Option::Some(
                    orig[j].1,
                ),
        decreases m,
    {
        proof {
            assert(remaining@[m - 1] == orig.subrange(0, m as int)[m - 1]);
            assert(remaining@.last() == orig[m - 1]);
            assert(remaining@.drop_last() =~= orig.subrange(0, m - 1));
        }
        let pair = match remaining.pop() {
            Option::Some(p) => p,
            Option::None => {
                proof {
                    assert(false);
                }
                vstd::pervasive::unreached()
            },
        };
        let (idx, outcome) = pair;
        proof {
            assert(pair == orig[m - 1]);
        }
        slots.set(idx, Option::Some(outcome));
        m = m - 1;
        proof {
            assert forall|j: int|
                m <= j < orig.len() implies slots@[(#[trigger] orig[j]).0 as int]
                == Option::Some(orig[j].1) by {
                if j > m {
                    assert(orig[m as int].0 != orig[j].0);
                }
            }
        }
    }
    let ghost fslots = slots@;
    proof {
        assert forall|idx: int| 0 <= idx < orig.len() implies fslots[idx] is Some by {
            assert(spec_covers(orig, idx));
            let j = choose|j: int| 0 <= j < orig.len() && (#[trigger] orig[j]).0 == idx;
            assert(fslots[(orig[j]).0 as int] == Option::Some(orig[j].1));
        }
    }
    let mut result: Vec<SegmentOutcome> = Vec::new();
    let mut taken: usize = 0;
    proof {
        assert(slots@ =~= fslots.subrange(0, n as int));
    }
    while taken < n
        invariant
            taken <= n,
            fslots.len() == n,
            slots@ == fslots.subrange(taken as int, n as int),
            result@.len() == taken,
            forall|idx: int| 0 <= idx < fslots.len() ==> #[trigger] fslots[idx] is Some,
            forall|idx: int|
                0 <= idx < taken ==> Option::Some(#[trigger] result@[idx]) == fslots[idx],
        decreases n - taken,
    {
        proof {
            assert(slots@[0] == fslots.subrange(taken as int, n as int)[0]);
            assert(slots@[0] == fslots[taken as int]);
        }
        let first = slots.remove(0);
        proof {
            assert(slots@ =~= fslots.subrange(taken + 1, n as int));
        }
        match first {
            Option::Some(o) => {
                result.push(o);
            },
            Option::None => {
                proof {
                    assert(fslots[taken as int] is Some);
                    assert(false);
                }
            },
        }
        taken = taken + 1;
    }
    proof {
        assert forall|j: int| 0 <= j < orig.len() implies result@[(#[trigger] orig[j]).0 as int]
            == orig[j].1 by {
            let idx = orig[j].0 as int;
            assert(fslots[idx] == Option::Some(orig[j].1));
            assert(Option::Some(result@[idx - 0]) == fslots[idx]);
        }
    }
    result
}

} // verus!
