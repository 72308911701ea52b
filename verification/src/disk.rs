//! The disk segment: every mounted volume that is not excluded, two
//! lines each — a summary and the gauge row the paint layer fills.
//! Acquisition hands in plain volume readings; the exclusion rule and
//! the used-space arithmetic live here.

use vstd::prelude::*;
use crate::level::{classify_usage, spec_usage_level, UsageLevel};
use crate::render::{
    continuation_line, label_line, spec_continuation_line, spec_label_line, Info,
    SegmentRenderer,
};
use crate::units::{format_gb, spec_format_gb};

verus! {

/// One mounted volume as acquisition reports it.
pub struct Volume {
    pub name: String,
    pub mount_point: String,
    pub available_space: u64,
    pub total_space: u64,
}

/// One volume kept in the snapshot, with its used space computed.
pub struct Disk {
    pub name: String,
    pub mount_point: String,
    pub free_space: u64,
    pub total_space: u64,
    pub used_space: u64,
}

/// Snapshot of the kept volumes and the usage thresholds.
pub struct DiskInfo {
    pub disks: Vec<Disk>,
    pub warning_threshold_percent: u64,
    pub critical_threshold_percent: u64,
}

impl Info for DiskInfo {

}

impl Default for DiskInfo {
    fn default() -> (r: Self)
        ensures
            r.disks@ == Seq::<Disk>::empty(),
            r.warning_threshold_percent == 80,
            r.critical_threshold_percent == 90,
    {
        DiskInfo {
            disks: Vec::new(),
            warning_threshold_percent: 80,
            critical_threshold_percent: 90,
        }
    }
}

/// The disk a volume reading becomes: used space is what the total
/// leaves over the free space, never negative.
pub open spec fn spec_disk_of(v: Volume) -> Disk {
    Disk {
        name: v.name,
        mount_point: v.mount_point,
        free_space: v.available_space,
        total_space: v.total_space,
        used_space: if v.available_space <= v.total_space {
            (v.total_space - v.available_space) as u64
        } else {
            0u64
        },
    }
}

/// Whether `mount_point` is one of the excluded mount points.
pub open spec fn spec_excluded(excluded: Seq<String>, mount_point: Seq<char>) -> bool {
    exists|i: int| 0 <= i < excluded.len() && #[trigger] excluded[i]@ == mount_point
}

/// The disks kept from a volume list: excluded mount points dropped,
/// the rest converted in order.
pub open spec fn spec_build_disks(volumes: Seq<Volume>, excluded: Seq<String>) -> Seq<Disk>
    decreases volumes.len(),
{
    if volumes.len() == 0 {
        Seq::empty()
    } else if spec_excluded(excluded, volumes[0].mount_point@) {
        spec_build_disks(volumes.drop_first(), excluded)
    } else {
        seq![spec_disk_of(volumes[0])] + spec_build_disks(volumes.drop_first(), excluded)
    }
}

/// Configuration for the disk snapshot: mount points to leave out and
/// the usage thresholds.
pub struct DiskInfoBuilder {
    pub excluded_mount_points: Vec<String>,
    pub warning_threshold_percent: u64,
    pub critical_threshold_percent: u64,
}

impl Default for DiskInfoBuilder {
    fn default() -> (r: Self)
        ensures
            r.excluded_mount_points@ == Seq::<String>::empty(),
            r.warning_threshold_percent == 85,
            r.critical_threshold_percent == 95,
    {
        DiskInfoBuilder {
            excluded_mount_points: Vec::new(),
            warning_threshold_percent: 85,
            critical_threshold_percent: 95,
        }
    }
}

impl DiskInfoBuilder {
    /// Adds a mount point to leave out of the snapshot.
    pub fn exclude_mount_point(self, mount_point: String) -> (r: Self)
        ensures
            r.excluded_mount_points@ == self.excluded_mount_points@.push(mount_point),
            r.warning_threshold_percent == self.warning_threshold_percent,
            r.critical_threshold_percent == self.critical_threshold_percent,
    {
        let mut excluded = self.excluded_mount_points;
        excluded.push(mount_point);
        DiskInfoBuilder { excluded_mount_points: excluded, ..self }
    }

    pub fn warning_threshold_percent(self, percent: u64) -> (r: Self)
        ensures
            r.excluded_mount_points == self.excluded_mount_points,
            r.warning_threshold_percent == percent,
            r.critical_threshold_percent == self.critical_threshold_percent,
    {
        DiskInfoBuilder { warning_threshold_percent: percent, ..self }
    }

    pub fn critical_threshold_percent(self, percent: u64) -> (r: Self)
        ensures
            r.excluded_mount_points == self.excluded_mount_points,
            r.warning_threshold_percent == self.warning_threshold_percent,
            r.critical_threshold_percent == percent,
    {
        DiskInfoBuilder { critical_threshold_percent: percent, ..self }
    }

    /// Whether a mount point is configured to be left out.
    fn is_excluded(&self, mount_point: &String) -> (r: bool)
        ensures
            r == spec_excluded(self.excluded_mount_points@, mount_point@),
    {
        let n = self.excluded_mount_points.len();
        let mut i: usize = 0;
        while i < n
            invariant
                n == self.excluded_mount_points@.len(),
                i <= n,
                forall|k: int|
                    0 <= k < i ==> #[trigger] self.excluded_mount_points@[k]@ != mount_point@,
            decreases n - i,
        {
            if self.excluded_mount_points[i].eq(mount_point) {
                proof {
                    assert(self.excluded_mount_points@[i as int]@ == mount_point@);
                }
                return true;
            }
            proof {
                assert(self.excluded_mount_points@[i as int]@ != mount_point@);
            }
            i = i + 1;
        }
        false
    }

    /// Builds the snapshot from the volume readings, dropping excluded
    /// mount points and computing each kept volume's used space.
    pub fn build_from_volumes(&self, volumes: Vec<Volume>) -> (r: DiskInfo)
        ensures
            r.disks@ == spec_build_disks(volumes@, self.excluded_mount_points@),
            r.warning_threshold_percent == self.warning_threshold_percent,
            r.critical_threshold_percent == self.critical_threshold_percent,
    {
        let mut disks: Vec<Disk> = Vec::new();
        let n = volumes.len();
        let mut i: usize = 0;
        proof {
            assert(volumes@.subrange(0, n as int) =~= volumes@);
            assert(disks@ + spec_build_disks(volumes@, self.excluded_mount_points@)
                =~= spec_build_disks(volumes@, self.excluded_mount_points@));
        }
        while i < n
            invariant
                n == volumes@.len(),
                i <= n,
                spec_build_disks(volumes@, self.excluded_mount_points@) == disks@
                    + spec_build_disks(
                    volumes@.subrange(i as int, n as int),
                    self.excluded_mount_points@,
                ),
            decreases n - i,
        {
            let ghost rest = volumes@.subrange(i as int, n as int);
            proof {
                assert(rest[0] == volumes@[i as int]);
                assert(rest.drop_first() =~= volumes@.subrange(i + 1, n as int));
            }
            let v = &volumes[i];
            if !self.is_excluded(&v.mount_point) {
                let used = if v.available_space <= v.total_space {
                    v.total_space - v.available_space
                } else {
                    0
                };
                disks.push(
                    Disk {
                        name: v.name.clone(),
                        mount_point: v.mount_point.clone(),
                        free_space: v.available_space,
                        total_space: v.total_space,
                        used_space: used,
                    },
                );
                proof {
                    assert(disks@.last() == spec_disk_of(volumes@[i as int]));
                    assert(disks@ =~= disks@.drop_last().push(disks@.last()));
                    assert(disks@.drop_last() + seq![spec_disk_of(volumes@[i as int])]
                        + spec_build_disks(
                        volumes@.subrange(i + 1, n as int),
                        self.excluded_mount_points@,
                    ) =~= disks@ + spec_build_disks(
                        volumes@.subrange(i + 1, n as int),
                        self.excluded_mount_points@,
                    ));
                }
            }
            i = i + 1;
        }
        proof {
            assert(volumes@.subrange(n as int, n as int) =~= Seq::<Volume>::empty());
            assert(disks@ + Seq::<Disk>::empty() =~= disks@);
        }
        DiskInfo {
            disks,
            warning_threshold_percent: self.warning_threshold_percent,
            critical_threshold_percent: self.critical_threshold_percent,
        }
    }
}

impl Disk {
    /// The summary line's content for one disk.
    pub open spec fn spec_summary(&self) -> Seq<char> {
        self.name@ + " ("@ + self.mount_point@ + ") - "@ + spec_format_gb(self.used_space as nat)
            + " used / "@ + spec_format_gb(self.total_space as nat) + " total ("@ + spec_format_gb(
            self.free_space as nat,
        ) + " free)"@
    }

    pub fn summary(&self) -> (r: String)
        ensures
            r@ == self.spec_summary(),
    {
        let mut s = self.name.clone();
        s.append(" (");
        s.append(self.mount_point.as_str());
        s.append(") - ");
        let used = format_gb(self.used_space);
        s.append(used.as_str());
        s.append(" used / ");
        let total = format_gb(self.total_space);
        s.append(total.as_str());
        s.append(" total (");
        let free = format_gb(self.free_space);
        s.append(free.as_str());
        s.append(" free)");
        assert(s@ =~= self.spec_summary());
        s
    }

    /// The highlight bucket of this disk's used ratio.
    pub fn usage_level(&self, warning_percent: u64, critical_percent: u64) -> (r: UsageLevel)
        ensures
            r == spec_usage_level(
                self.used_space as nat,
                self.total_space as nat,
                warning_percent as nat,
                critical_percent as nat,
            ),
    {
        classify_usage(self.used_space, self.total_space, warning_percent, critical_percent)
    }
}

/// Renders the disk snapshot: per disk a summary line — the first led
/// by the label — and the gauge row under it.
pub struct DiskSegmentRenderer {
    pub info: DiskInfo,
}

impl DiskSegmentRenderer {
    pub fn new(info: DiskInfo) -> (r: Self)
        ensures
            r.info == info,
    {
        DiskSegmentRenderer { info }
    }
}

impl Default for DiskSegmentRenderer {
    fn default() -> (r: Self)
        ensures
            r.info.disks@ == Seq::<Disk>::empty(),
            r.info.warning_threshold_percent == 80,
            r.info.critical_threshold_percent == 90,
    {
        DiskSegmentRenderer { info: DiskInfo::default() }
    }
}

/// The two lines of disk number `i` of the snapshot.
pub open spec fn spec_disk_lines(disks: Seq<Disk>, i: int) -> Seq<Seq<char>> {
    seq![
        if i == 0 {
            spec_label_line("Disk"@, disks[i].spec_summary())
        } else {
            spec_continuation_line(disks[i].spec_summary())
        },
        Seq::empty(),
    ]
}

/// All lines of the disk segment.
pub open spec fn spec_all_disk_lines(disks: Seq<Disk>, upto: int) -> Seq<Seq<char>>
    decreases upto,
{
    if upto <= 0 {
        Seq::empty()
    } else {
        spec_all_disk_lines(disks, upto - 1) + spec_disk_lines(disks, upto - 1)
    }
}

impl SegmentRenderer for DiskSegmentRenderer {
    open spec fn spec_lines(&self) -> Seq<Seq<char>> {
        spec_all_disk_lines(self.info.disks@, self.info.disks@.len() as int)
    }

    fn height(&self) -> (h: usize) {
        let r = self.render_lines();
        r.len()
    }

    fn render_lines(&self) -> (r: Vec<String>) {
        let mut v: Vec<String> = Vec::new();
        let n = self.info.disks.len();
        let mut i: usize = 0;
        while i < n
            invariant
                n == self.info.disks@.len(),
                i <= n,
                v@.map_values(|x: String| x@) == spec_all_disk_lines(
                    self.info.disks@,
                    i as int,
                ),
            decreases n - i,
        {
            let ghost prev = v@.map_values(|x: String| x@);
            let summary = self.info.disks[i].summary();
            if i == 0 {
                v.push(label_line("Disk", summary.as_str()));
            } else {
                v.push(continuation_line(summary.as_str()));
            }
            v.push(String::new());
            i = i + 1;
            proof {
                assert(v@.map_values(|x: String| x@) =~= prev + spec_disk_lines(
                    self.info.disks@,
                    i - 1,
                ));
            }
        }
        v
    }
}

} // verus!
