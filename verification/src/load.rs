//! The load segment: the three load averages against the core count,
//! one line.  Load averages are carried in hundredths, the precision
//! they are displayed with.

use vstd::prelude::*;
use crate::level::{classify_load, spec_load_level, UsageLevel};
use crate::render::{label_line, spec_label_line, Info, SegmentRenderer};
use crate::text::{push_u64, spec_dec, spec_digit_char};

verus! {

/// Snapshot of the one-, five- and fifteen-minute load averages, in
/// hundredths, and the physical core count they are judged against.
pub struct LoadInfo {
    pub one_hundredths: u64,
    pub five_hundredths: u64,
    pub fifteen_hundredths: u64,
    pub cores: u64,
}

impl Info for LoadInfo {

}

/// Builds the load snapshot from raw readings.
pub struct LoadInfoBuilder {
}

impl LoadInfoBuilder {
    pub fn new() -> (r: Self) {
        LoadInfoBuilder {  }
    }

    /// Builds the snapshot; a machine that reports no core count is
    /// treated as a single core.
    pub fn build_from_readings(
        &self,
        one_hundredths: u64,
        five_hundredths: u64,
        fifteen_hundredths: u64,
        cores: Option<u64>,
    ) -> (r: LoadInfo)
        ensures
            r.one_hundredths == one_hundredths,
            r.five_hundredths == five_hundredths,
            r.fifteen_hundredths == fifteen_hundredths,
            r.cores == (match cores {
                Option::Some(c) => c,
                Option::None => 1u64,
            }),
    {
        let core_count = match cores {
            Option::Some(c) => c,
            Option::None => 1,
        };
        LoadInfo { one_hundredths, five_hundredths, fifteen_hundredths, cores: core_count }
    }
}

impl Default for LoadInfoBuilder {
    fn default() -> (r: Self) {
        LoadInfoBuilder {  }
    }
}

/// A load average rendered with two decimals: `0.42`, `12.05`.
pub open spec fn spec_load_value(hundredths: nat) -> Seq<char> {
    spec_dec(hundredths / 100) + seq!['.'] + seq![
        spec_digit_char((hundredths / 10) % 10),
        spec_digit_char(hundredths % 10),
    ]
}

/// Appends a load average with two decimals.
fn push_load_value(s: &mut String, hundredths: u64)
    ensures
        final(s)@ == old(s)@ + spec_load_value(hundredths as nat),
{
    push_u64(s, hundredths / 100);
    proof {
        reveal_strlit(".");
        assert("."@ =~= seq!['.']);
    }
    s.append(".");
    push_u64(s, (hundredths / 10) % 10);
    push_u64(s, hundredths % 10);
    assert(s@ =~= old(s)@ + spec_load_value(hundredths as nat));
}

/// Renders the load snapshot as one labelled line.
pub struct LoadSegmentRenderer {
    pub info: LoadInfo,
}

impl LoadSegmentRenderer {
    pub fn new(info: LoadInfo) -> (r: Self)
        ensures
            r.info == info,
    {
        LoadSegmentRenderer { info }
    }

    /// The line's content: the three load averages and the core count.
    pub open spec fn spec_loads(&self) -> Seq<char> {
        spec_load_value(self.info.one_hundredths as nat) + ", "@ + spec_load_value(
            self.info.five_hundredths as nat,
        ) + ", "@ + spec_load_value(self.info.fifteen_hundredths as nat) + " (across "@ + spec_dec(
            self.info.cores as nat,
        ) + " cores)"@
    }

    pub fn format_loads(&self) -> (r: String)
        ensures
            r@ == self.spec_loads(),
    {
        let mut s = String::new();
        push_load_value(&mut s, self.info.one_hundredths);
        s.append(", ");
        push_load_value(&mut s, self.info.five_hundredths);
        s.append(", ");
        push_load_value(&mut s, self.info.fifteen_hundredths);
        s.append(" (across ");
        push_u64(&mut s, self.info.cores);
        s.append(" cores)");
        assert(s@ =~= self.spec_loads());
        s
    }

    /// The highlight buckets of the three load averages, in order.
    pub fn load_levels(&self) -> (r: (UsageLevel, UsageLevel, UsageLevel))
        ensures
            r.0 == spec_load_level(self.info.one_hundredths as nat, self.info.cores as nat),
            r.1 == spec_load_level(self.info.five_hundredths as nat, self.info.cores as nat),
            r.2 == spec_load_level(self.info.fifteen_hundredths as nat, self.info.cores as nat),
    {
        (
            classify_load(self.info.one_hundredths, self.info.cores),
            classify_load(self.info.five_hundredths, self.info.cores),
            classify_load(self.info.fifteen_hundredths, self.info.cores),
        )
    }
}

impl SegmentRenderer for LoadSegmentRenderer {
    open spec fn spec_lines(&self) -> Seq<Seq<char>> {
        seq![spec_label_line("Load"@, self.spec_loads())]
    }

    fn height(&self) -> (h: usize) {
        1
    }

    fn render_lines(&self) -> (r: Vec<String>) {
        let mut v: Vec<String> = Vec::new();
        let content = self.format_loads();
        v.push(label_line("Load", content.as_str()));
        proof {
            assert(v@.map_values(|x: String| x@) =~= self.spec_lines());
        }
        v
    }
}

} // verus!
