//! The memory segment: used, available and total bytes, with a usage
//! bucket against configurable thresholds.  Two lines: a summary and
//! the gauge row the paint layer fills.

use vstd::prelude::*;
use crate::level::{classify_usage, spec_usage_level, UsageLevel};
use crate::render::{label_line, spec_label_line, Info, SegmentRenderer};
use crate::units::{format_gb, spec_format_gb};

verus! {

/// Snapshot of the machine's memory, in raw bytes; conversion to
/// gigabytes belongs to the rendering side.
pub struct MemoryInfo {
    pub used_bytes: u64,
    pub available_bytes: u64,
    pub total_bytes: u64,
    pub warning_threshold_percent: u64,
    pub critical_threshold_percent: u64,
}

impl Info for MemoryInfo {

}

impl MemoryInfo {
    pub fn new(
        used_bytes: u64,
        available_bytes: u64,
        total_bytes: u64,
        warning_threshold_percent: u64,
        critical_threshold_percent: u64,
    ) -> (r: Self)
        ensures
            r == (MemoryInfo {
                used_bytes,
                available_bytes,
                total_bytes,
                warning_threshold_percent,
                critical_threshold_percent,
            }),
    {
        MemoryInfo {
            used_bytes,
            available_bytes,
            total_bytes,
            warning_threshold_percent,
            critical_threshold_percent,
        }
    }

    /// The summary line's content: used and total, with the free span.
    pub open spec fn spec_summary(&self) -> Seq<char> {
        spec_format_gb(self.used_bytes as nat) + " used / "@ + spec_format_gb(
            self.total_bytes as nat,
        ) + " total ("@ + spec_format_gb(self.available_bytes as nat) + " free)"@
    }

    pub fn summary(&self) -> (r: String)
        ensures
            r@ == self.spec_summary(),
    {
        let mut s = format_gb(self.used_bytes);
        s.append(" used / ");
        let total = format_gb(self.total_bytes);
        s.append(total.as_str());
        s.append(" total (");
        let available = format_gb(self.available_bytes);
        s.append(available.as_str());
        s.append(" free)");
        assert(s@ =~= self.spec_summary());
        s
    }

    /// The highlight bucket of the used ratio.
    pub fn usage_level(&self) -> (r: UsageLevel)
        ensures
            r == spec_usage_level(
                self.used_bytes as nat,
                self.total_bytes as nat,
                self.warning_threshold_percent as nat,
                self.critical_threshold_percent as nat,
            ),
    {
        classify_usage(
            self.used_bytes,
            self.total_bytes,
            self.warning_threshold_percent,
            self.critical_threshold_percent,
        )
    }
}

/// Configuration for the memory snapshot: the two usage thresholds.
pub struct MemoryInfoBuilder {
    pub warning_threshold_percent: u64,
    pub critical_threshold_percent: u64,
}

impl MemoryInfoBuilder {
    pub fn new() -> (r: Self)
        ensures
            r.warning_threshold_percent == 20,
            r.critical_threshold_percent == 10,
    {
        MemoryInfoBuilder { warning_threshold_percent: 20, critical_threshold_percent: 10 }
    }

    pub fn warning_threshold_percent(self, percent: u64) -> (r: Self)
        ensures
            r.warning_threshold_percent == percent,
            r.critical_threshold_percent == self.critical_threshold_percent,
    {
        MemoryInfoBuilder { warning_threshold_percent: percent, ..self }
    }

    pub fn critical_threshold_percent(self, percent: u64) -> (r: Self)
        ensures
            r.warning_threshold_percent == self.warning_threshold_percent,
            r.critical_threshold_percent == percent,
    {
        MemoryInfoBuilder { critical_threshold_percent: percent, ..self }
    }

    /// Builds the snapshot from raw byte readings.
    pub fn build_from_readings(&self, used_bytes: u64, available_bytes: u64, total_bytes: u64) -> (r:
        MemoryInfo)
        ensures
            r == (MemoryInfo {
                used_bytes,
                available_bytes,
                total_bytes,
                warning_threshold_percent: self.warning_threshold_percent,
                critical_threshold_percent: self.critical_threshold_percent,
            }),
    {
        MemoryInfo {
            used_bytes,
            available_bytes,
            total_bytes,
            warning_threshold_percent: self.warning_threshold_percent,
            critical_threshold_percent: self.critical_threshold_percent,
        }
    }
}

impl Default for MemoryInfoBuilder {
    fn default() -> (r: Self)
        ensures
            r.warning_threshold_percent == 20,
            r.critical_threshold_percent == 10,
    {
        MemoryInfoBuilder::new()
    }
}

/// Renders the memory snapshot: a labelled summary line and the gauge
/// row under it.
pub struct MemorySegmentRenderer {
    pub info: MemoryInfo,
}

impl MemorySegmentRenderer {
    pub fn new(info: MemoryInfo) -> (r: Self)
        ensures
            r.info == info,
    {
        MemorySegmentRenderer { info }
    }
}

impl SegmentRenderer for MemorySegmentRenderer {
    open spec fn spec_lines(&self) -> Seq<Seq<char>> {
        seq![spec_label_line("RAM"@, self.info.spec_summary()), Seq::empty()]
    }

    fn height(&self) -> (h: usize) {
        2
    }

    fn render_lines(&self) -> (r: Vec<String>) {
        let mut v: Vec<String> = Vec::new();
        let summary = self.info.summary();
        v.push(label_line("RAM", summary.as_str()));
        v.push(String::new());
        proof {
            assert(v@.map_values(|x: String| x@) =~= self.spec_lines());
        }
        v
    }
}

} // verus!
