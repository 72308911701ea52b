//! The operating system segment: the OS description, one line.

use vstd::prelude::*;
use crate::render::{label_line, spec_label_line, Info, SegmentRenderer};

verus! {

/// Snapshot of the operating system's description.
pub struct OsInfo {
    pub os_string: String,
}

impl Info for OsInfo {

}

impl OsInfo {
    pub fn new(os_string: String) -> (r: Self)
        ensures
            r.os_string == os_string,
    {
        OsInfo { os_string }
    }
}

/// Renders the OS snapshot as one labelled line.
pub struct OsSegmentRenderer {
    pub info: OsInfo,
}

impl OsSegmentRenderer {
    pub fn new(info: OsInfo) -> (r: Self)
        ensures
            r.info == info,
    {
        OsSegmentRenderer { info }
    }
}

impl SegmentRenderer for OsSegmentRenderer {
    open spec fn spec_lines(&self) -> Seq<Seq<char>> {
        seq![spec_label_line("OS"@, self.info.os_string@)]
    }

    fn height(&self) -> (h: usize) {
        1
    }

    fn render_lines(&self) -> (r: Vec<String>) {
        let mut v: Vec<String> = Vec::new();
        v.push(label_line("OS", self.info.os_string.as_str()));
        proof {
            assert(v@.map_values(|x: String| x@) =~= self.spec_lines());
        }
        v
    }
}

} // verus!
