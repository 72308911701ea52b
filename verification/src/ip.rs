//! The network address segment: the local IP address, one line.

use vstd::prelude::*;
use crate::render::{left_label_line, spec_left_label_line, Info, SegmentRenderer};

verus! {

/// Snapshot of the machine's local address.
pub struct IpInfo {
    pub ip_address: String,
}

impl Info for IpInfo {

}

impl IpInfo {
    pub fn new(ip_address: String) -> (r: Self)
        ensures
            r.ip_address == ip_address,
    {
        IpInfo { ip_address }
    }
}

/// Renders the address snapshot as one labelled line.
pub struct IpSegmentRenderer {
    pub info: IpInfo,
}

impl IpSegmentRenderer {
    pub fn new(info: IpInfo) -> (r: Self)
        ensures
            r.info == info,
    {
        IpSegmentRenderer { info }
    }
}

impl SegmentRenderer for IpSegmentRenderer {
    open spec fn spec_lines(&self) -> Seq<Seq<char>> {
        seq![spec_left_label_line("IP address"@, self.info.ip_address@)]
    }

    fn height(&self) -> (h: usize) {
        1
    }

    fn render_lines(&self) -> (r: Vec<String>) {
        let mut v: Vec<String> = Vec::new();
        v.push(left_label_line("IP address", self.info.ip_address.as_str()));
        proof {
            assert(v@.map_values(|x: String| x@) =~= self.spec_lines());
        }
        v
    }
}

} // verus!
