//! The uptime segment: how long the machine has been up, one line.
//! The acquisition side reads the raw second count; everything from
//! seconds to the displayed string is pure.

use vstd::prelude::*;
use crate::duration::{format_uptime, spec_uptime};
use crate::render::{label_line, spec_label_line, Info, SegmentRenderer};
use crate::text::{spec_contains, str_contains};

verus! {

/// Snapshot of the machine's uptime, already rendered as a string of
/// non-zero units.
pub struct UptimeInfo {
    pub uptime: String,
}

impl Info for UptimeInfo {

}

impl UptimeInfo {
    pub fn new(uptime: String) -> (r: Self)
        ensures
            r.uptime == uptime,
    {
        UptimeInfo { uptime }
    }
}

/// Turns a raw uptime second count into its snapshot.
pub struct UptimeInfoBuilder {
}

impl UptimeInfoBuilder {
    pub fn new() -> (r: Self) {
        UptimeInfoBuilder {  }
    }

    /// Builds the snapshot from the machine's uptime in seconds.
    pub fn build_from_seconds(&self, uptime_seconds: u64) -> (r: UptimeInfo)
        ensures
            r.uptime@ == spec_uptime(uptime_seconds as nat),
    {
        UptimeInfo { uptime: format_uptime(uptime_seconds) }
    }
}

impl Default for UptimeInfoBuilder {
    fn default() -> (r: Self) {
        UptimeInfoBuilder {  }
    }
}

/// Renders the uptime snapshot as one labelled line.
pub struct UptimeSegmentRenderer {
    pub info: UptimeInfo,
}

impl UptimeSegmentRenderer {
    pub fn new(info: UptimeInfo) -> (r: Self)
        ensures
            r.info == info,
    {
        UptimeSegmentRenderer { info }
    }

    /// Whether the uptime line is highlighted: it is exactly when the
    /// uptime has reached whole days.
    pub fn highlighted(&self) -> (r: bool)
        ensures
            r == spec_contains(self.info.uptime@, "day"@),
    {
        str_contains(self.info.uptime.as_str(), "day")
    }
}

impl SegmentRenderer for UptimeSegmentRenderer {
    open spec fn spec_lines(&self) -> Seq<Seq<char>> {
        seq![spec_label_line("Uptime"@, self.info.uptime@)]
    }

    fn height(&self) -> (h: usize) {
        1
    }

    fn render_lines(&self) -> (r: Vec<String>) {
        let mut v: Vec<String> = Vec::new();
        v.push(label_line("Uptime", self.info.uptime.as_str()));
        proof {
            assert(v@.map_values(|x: String| x@) =~= self.spec_lines());
        }
        v
    }
}

} // verus!
