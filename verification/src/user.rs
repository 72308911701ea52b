//! The identity segment: the current user and host, one line.

use vstd::prelude::*;
use crate::render::{label_line, spec_label_line, Info, SegmentRenderer};

verus! {

/// Snapshot of who is logged in and where.
pub struct UserInfo {
    pub username: String,
    pub hostname: String,
}

impl Info for UserInfo {

}

impl UserInfo {
    pub fn new(username: String, hostname: String) -> (r: Self)
        ensures
            r.username == username,
            r.hostname == hostname,
    {
        UserInfo { username, hostname }
    }

    /// The `user@host` form the segment shows.
    pub open spec fn spec_user_with_hostname(&self) -> Seq<char> {
        self.username@ + "@"@ + self.hostname@
    }

    pub fn user_with_hostname(&self) -> (r: String)
        ensures
            r@ == self.spec_user_with_hostname(),
    {
        let mut s = self.username.clone();
        s.append("@");
        s.append(self.hostname.as_str());
        assert(s@ =~= self.spec_user_with_hostname());
        s
    }
}

/// Renders the identity snapshot as one labelled line.
pub struct UserSegmentRenderer {
    pub info: UserInfo,
}

impl UserSegmentRenderer {
    pub fn new(info: UserInfo) -> (r: Self)
        ensures
            r.info == info,
    {
        UserSegmentRenderer { info }
    }
}

impl SegmentRenderer for UserSegmentRenderer {
    open spec fn spec_lines(&self) -> Seq<Seq<char>> {
        seq![spec_label_line("User"@, self.info.spec_user_with_hostname())]
    }

    fn height(&self) -> (h: usize) {
        1
    }

    fn render_lines(&self) -> (r: Vec<String>) {
        let mut v: Vec<String> = Vec::new();
        let content = self.info.user_with_hostname();
        v.push(label_line("User", content.as_str()));
        proof {
            assert(v@.map_values(|x: String| x@) =~= self.spec_lines());
        }
        v
    }
}

} // verus!
