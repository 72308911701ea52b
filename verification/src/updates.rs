//! The updates segment: candidate system updates read from the update
//! metadata, kept when they are genuine OS installers carrying a
//! version newer than the running one.  Versions are compared as plain
//! `major.minor.patch` triples.

use vstd::prelude::*;
use crate::render::{
    label_line, continuation_line, spec_attach_label, spec_label_line, Info, SegmentRenderer,
};
use crate::text::{spec_contains, str_contains};

verus! {

/// The tag marking a candidate as an OS installer.
pub open spec fn spec_installer_tag() -> Seq<char> {
    "SUBUNDLE:com.apple.InstallAssistant"@
}

/// A version triple.
#[derive(Clone, Copy, Debug, PartialEq, Eq, Structural)]
pub struct SemVersion {
    pub major: u64,
    pub minor: u64,
    pub patch: u64,
}

/// Version precedence: by major, then minor, then patch.
pub open spec fn spec_version_gt(a: SemVersion, b: SemVersion) -> bool {
    if a.major != b.major {
        a.major > b.major
    } else if a.minor != b.minor {
        a.minor > b.minor
    } else {
        a.patch > b.patch
    }
}

/// Whether `a` takes precedence over `b`.
pub fn version_gt(a: &SemVersion, b: &SemVersion) -> (r: bool)
    ensures
        r == spec_version_gt(*a, *b),
{
    if a.major != b.major {
        a.major > b.major
    } else if a.minor != b.minor {
        a.minor > b.minor
    } else {
        a.patch > b.patch
    }
}

/// Whether `c` is a decimal digit.
pub open spec fn spec_is_digit(c: char) -> bool {
    c == '0' || c == '1' || c == '2' || c == '3' || c == '4' || c == '5' || c == '6' || c == '7'
        || c == '8' || c == '9'
}

/// The value of a decimal digit; meaningful only for digits.
pub open spec fn spec_digit_value(c: char) -> nat {
    if c == '0' {
        0
    } else if c == '1' {
        1
    } else if c == '2' {
        2
    } else if c == '3' {
        3
    } else if c == '4' {
        4
    } else if c == '5' {
        5
    } else if c == '6' {
        6
    } else if c == '7' {
        7
    } else if c == '8' {
        8
    } else {
        9
    }
}

/// A non-empty run of decimal digits.
pub open spec fn spec_is_digits(s: Seq<char>) -> bool {
    s.len() > 0 && forall|k: int| 0 <= k < s.len() ==> spec_is_digit(#[trigger] s[k])
}

/// The number a digit run denotes.
pub open spec fn spec_digits_value(s: Seq<char>) -> nat
    decreases s.len(),
{
    if s.len() == 0 {
        0
    } else {
        spec_digits_value(s.drop_last()) * 10 + spec_digit_value(s.last())
    }
}

/// A well-formed version component: digits without a superfluous
/// leading zero, denoting a number the machine word holds.
pub open spec fn spec_component_ok(s: Seq<char>) -> bool {
    spec_is_digits(s) && (s.len() == 1 || s[0] != '0') && spec_digits_value(s) <= u64::MAX
}

/// The positions of the dots in `s`, ascending.
pub open spec fn spec_dots(s: Seq<char>) -> Seq<int>
    decreases s.len(),
{
    if s.len() == 0 {
        Seq::empty()
    } else {
        spec_dots(s.drop_last()) + if s.last() == '.' {
            seq![s.len() - 1]
        } else {
            Seq::<int>::empty()
        }
    }
}

/// The version a text denotes: exactly two dots splitting three
/// well-formed components; anything else is no version.
pub open spec fn spec_version_of(s: Seq<char>) -> Option<SemVersion> {
    let d = spec_dots(s);
    if d.len() == 2 {
        let a = s.subrange(0, d[0]);
        let b = s.subrange(d[0] + 1, d[1]);
        let c = s.subrange(d[1] + 1, s.len() as int);
        if spec_component_ok(a) && spec_component_ok(b) && spec_component_ok(c) {
            Option::Some(
                SemVersion {
                    major: spec_digits_value(a) as u64,
                    minor: spec_digits_value(b) as u64,
                    patch: spec_digits_value(c) as u64,
                },
            )
        } else {
            Option::None
        }
    } else {
        Option::None
    }
}

/// A digit run's prefixes denote no more than the whole run.
proof fn lemma_digits_value_prefix_le(s: Seq<char>, j: int)
    requires
        0 <= j <= s.len(),
    ensures
        spec_digits_value(s.subrange(0, j)) <= spec_digits_value(s),
    decreases s.len() - j,
{
    if j < s.len() {
        assert(s.subrange(0, j + 1).drop_last() =~= s.subrange(0, j));
        assert(s.subrange(0, j + 1).last() == s[j]);
        let v = spec_digits_value(s.subrange(0, j));
        assert(v * 10 >= v) by (nonlinear_arith)
            requires
                v >= 0,
        ;
        lemma_digits_value_prefix_le(s, j + 1);
    } else {
        assert(s.subrange(0, j) =~= s);
    }
}

/// The value of one digit character, or nothing.
fn digit_value(c: char) -> (r: Option<u64>)
    ensures
        r is Some <==> spec_is_digit(c),
        r matches Some(v) ==> v == spec_digit_value(c),
{
    match c {
        '0' => Option::Some(0),
        '1' => Option::Some(1),
        '2' => Option::Some(2),
        '3' => Option::Some(3),
        '4' => Option::Some(4),
        '5' => Option::Some(5),
        '6' => Option::Some(6),
        '7' => Option::Some(7),
        '8' => Option::Some(8),
        '9' => Option::Some(9),
        _ => Option::None,
    }
}

/// Reads the component of `s` between `from` and `to`.
fn parse_component(s: &str, from: usize, to: usize) -> (r: Option<u64>)
    requires
        from <= to <= s@.len(),
    ensures
        r is Some <==> spec_component_ok(s@.subrange(from as int, to as int)),
        r matches Some(v) ==> v == spec_digits_value(s@.subrange(from as int, to as int)),
{
    let ghost comp = s@.subrange(from as int, to as int);
    if from == to {
        return Option::None;
    }
    if to - from > 1 && s.get_char(from) == '0' {
        proof {
            assert(comp[0] == s@[from as int]);
        }
        return Option::None;
    }
    let mut value: u64 = 0;
    let mut k: usize = from;
    proof {
        assert(comp.subrange(0, 0) =~= Seq::<char>::empty());
    }
    while k < to
        invariant
            from <= k <= to <= s@.len(),
            comp == s@.subrange(from as int, to as int),
            value == spec_digits_value(comp.subrange(0, k - from)),
            forall|j: int| 0 <= j < k - from ==> spec_is_digit(#[trigger] comp[j]),
        decreases to - k,
    {
        proof {
            assert(comp.subrange(0, k - from + 1).drop_last() =~= comp.subrange(0, k - from));
            assert(comp.subrange(0, k - from + 1).last() == comp[k - from]);
            assert(comp[k - from] == s@[k as int]);
        }
        let c = s.get_char(k);
        match digit_value(c) {
            Option::None => {
                return Option::None;
            },
            Option::Some(d) => {
                if value > (u64::MAX - d) / 10 {
                    proof {
                        let grown = comp.subrange(0, k - from + 1);
                        assert(spec_digits_value(grown) > u64::MAX);
                        lemma_digits_value_prefix_le(comp, k - from + 1);
                    }
                    return Option::None;
                }
                value = value * 10 + d;
            },
        }
        k = k + 1;
    }
    proof {
        assert(comp.subrange(0, to - from) =~= comp);
    }
    Option::Some(value)
}

/// Reads a version triple from a text; anything but `major.minor.patch`
/// with well-formed components is no version.
pub fn parse_version(s: &str) -> (r: Option<SemVersion>)
    ensures
        r == spec_version_of(s@),
{
    let len = s.unicode_len();
    let mut dots: Vec<usize> = Vec::new();
    let mut i: usize = 0;
    proof {
        assert(s@.subrange(0, 0) =~= Seq::<char>::empty());
        assert(dots@.map_values(|u: usize| u as int) =~= Seq::<int>::empty());
    }
    while i < len
        invariant
            len == s@.len(),
            i <= len,
            dots@.map_values(|u: usize| u as int) == spec_dots(s@.subrange(0, i as int)),
        decreases len - i,
    {
        let ghost prev = dots@.map_values(|u: usize| u as int);
        proof {
            assert(s@.subrange(0, i + 1).drop_last() =~= s@.subrange(0, i as int));
            assert(s@.subrange(0, i + 1).last() == s@[i as int]);
        }
        if s.get_char(i) == '.' {
            dots.push(i);
            proof {
                assert(dots@.map_values(|u: usize| u as int) =~= prev.push(i as int));
                assert(prev.push(i as int) =~= prev + seq![i as int]);
            }
        }
        i = i + 1;
    }
    proof {
        assert(s@.subrange(0, len as int) =~= s@);
    }
    if dots.len() != 2 {
        return Option::None;
    }
    let d0 = dots[0];
    let d1 = dots[1];
    proof {
        assert(dots@.map_values(|u: usize| u as int)[0] == d0 as int);
        assert(dots@.map_values(|u: usize| u as int)[1] == d1 as int);
        lemma_dots_sorted(s@);
    }
    let major = parse_component(s, 0, d0);
    let minor = parse_component(s, d0 + 1, d1);
    let patch = parse_component(s, d1 + 1, len);
    match (major, minor, patch) {
        (Option::Some(a), Option::Some(b), Option::Some(c)) => Option::Some(
            SemVersion { major: a, minor: b, patch: c },
        ),
        _ => Option::None,
    }
}

/// Dot positions are within the text and ascending.
proof fn lemma_dots_sorted(s: Seq<char>)
    ensures
        forall|k: int|
            0 <= k < spec_dots(s).len() ==> 0 <= #[trigger] spec_dots(s)[k] < s.len(),
        forall|k: int, l: int|
            0 <= k < l < spec_dots(s).len() ==> #[trigger] spec_dots(s)[k] < #[trigger] spec_dots(
                s,
            )[l],
    decreases s.len(),
{
    if s.len() > 0 {
        lemma_dots_sorted(s.drop_last());
        let d = spec_dots(s);
        let dprev = spec_dots(s.drop_last());
        assert forall|k: int| 0 <= k < d.len() implies 0 <= #[trigger] d[k] < s.len() by {
            if k < dprev.len() {
                assert(d[k] == dprev[k]);
            } else {
                assert(s.last() == '.');
                assert(d[k] == s.len() - 1);
            }
        }
        assert forall|k: int, l: int| 0 <= k < l < d.len() implies #[trigger] d[k]
            < #[trigger] d[l] by {
            assert(d[k] == dprev[k]);
            if l < dprev.len() {
                assert(d[l] == dprev[l]);
            } else {
                assert(s.last() == '.');
                assert(d[l] == s.len() - 1);
                assert(dprev[k] < s.drop_last().len());
            }
        }
    }
}

/// One candidate update as acquisition reads it from the metadata:
/// its tags, and the version and build texts where present.
pub struct UpdateCandidate {
    pub tags: Vec<String>,
    pub version_text: Option<String>,
    pub build_text: Option<String>,
}

/// Whether a candidate's tags mark it as an OS installer.
pub open spec fn spec_has_installer_tag(tags: Seq<String>) -> bool {
    exists|i: int| 0 <= i < tags.len() && spec_contains(#[trigger] tags[i]@, spec_installer_tag())
}

/// A candidate's version text; a candidate without one reads as text
/// that denotes no version.
pub open spec fn spec_version_text(c: UpdateCandidate) -> Seq<char> {
    match c.version_text {
        Option::Some(s) => s@,
        Option::None => "Unknown version"@,
    }
}

/// A candidate's build text.
pub open spec fn spec_build_text(c: UpdateCandidate) -> Seq<char> {
    match c.build_text {
        Option::Some(s) => s@,
        Option::None => "Unknown build"@,
    }
}

/// Whether a candidate is shown: an installer whose version reads as a
/// triple newer than the running version.
pub open spec fn spec_candidate_selected(c: UpdateCandidate, current: SemVersion) -> bool {
    spec_has_installer_tag(c.tags@) && match spec_version_of(spec_version_text(c)) {
        Option::Some(v) => spec_version_gt(v, current),
        Option::None => false,
    }
}

/// The line a shown candidate becomes.
pub open spec fn spec_candidate_line(c: UpdateCandidate) -> Seq<char> {
    "macOS "@ + spec_version_text(c) + " ("@ + spec_build_text(c) + ")"@
}

/// The shown updates, in candidate order.
pub open spec fn spec_selected_updates(cs: Seq<UpdateCandidate>, current: SemVersion) -> Seq<
    Seq<char>,
>
    decreases cs.len(),
{
    if cs.len() == 0 {
        Seq::empty()
    } else {
        spec_selected_updates(cs.drop_last(), current) + if spec_candidate_selected(
            cs.last(),
            current,
        ) {
            seq![spec_candidate_line(cs.last())]
        } else {
            Seq::<Seq<char>>::empty()
        }
    }
}

/// Snapshot of the available updates.
pub struct UpdatesInfo {
    pub updates: Vec<String>,
}

impl Info for UpdatesInfo {

}

impl Default for UpdatesInfo {
    fn default() -> (r: Self)
        ensures
            r.updates@ == Seq::<String>::empty(),
    {
        UpdatesInfo { updates: Vec::new() }
    }
}

/// Builds the updates snapshot from the read metadata.
pub struct UpdatesInfoBuilder {
}

impl UpdatesInfoBuilder {
    pub fn new() -> (r: Self) {
        UpdatesInfoBuilder {  }
    }

    /// Whether a candidate is shown.
    fn is_selected(&self, c: &UpdateCandidate, current: &SemVersion) -> (r: bool)
        ensures
            r == spec_candidate_selected(*c, *current),
    {
        let mut tagged = false;
        let n = c.tags.len();
        let mut i: usize = 0;
        while i < n && !tagged
            invariant
                n == c.tags@.len(),
                i <= n,
                tagged ==> spec_has_installer_tag(c.tags@),
                !tagged ==> forall|k: int|
                    0 <= k < i ==> !spec_contains(#[trigger] c.tags@[k]@, spec_installer_tag()),
            decreases n - i,
        {
            if str_contains(c.tags[i].as_str(), "SUBUNDLE:com.apple.InstallAssistant") {
                tagged = true;
            }
            i = i + 1;
        }
        if !tagged {
            return false;
        }
        let version_text: &str = match &c.version_text {
            Option::Some(s) => s.as_str(),
            Option::None => "Unknown version",
        };
        match parse_version(version_text) {
            Option::Some(v) => version_gt(&v, current),
            Option::None => false,
        }
    }

    /// The line a shown candidate becomes.
    fn candidate_line(&self, c: &UpdateCandidate) -> (r: String)
        ensures
            r@ == spec_candidate_line(*c),
    {
        let mut s = String::new();
        s.append("macOS ");
        match &c.version_text {
            Option::Some(v) => s.append(v.as_str()),
            Option::None => s.append("Unknown version"),
        }
        s.append(" (");
        match &c.build_text {
            Option::Some(b) => s.append(b.as_str()),
            Option::None => s.append("Unknown build"),
        }
        s.append(")");
        assert(s@ =~= spec_candidate_line(*c));
        s
    }

    /// Builds the snapshot: the lines of the selected candidates, in
    /// their metadata order.
    pub fn build_from_candidates(&self, current: SemVersion, candidates: Vec<UpdateCandidate>) -> (r:
        UpdatesInfo)
        ensures
            r.updates@.map_values(|x: String| x@) == spec_selected_updates(
                candidates@,
                current,
            ),
    {
        let mut updates: Vec<String> = Vec::new();
        let n = candidates.len();
        let mut i: usize = 0;
        proof {
            assert(candidates@.subrange(0, 0) =~= Seq::<UpdateCandidate>::empty());
            assert(updates@.map_values(|x: String| x@) =~= Seq::<Seq<char>>::empty());
        }
        while i < n
            invariant
                n == candidates@.len(),
                i <= n,
                updates@.map_values(|x: String| x@) == spec_selected_updates(
                    candidates@.subrange(0, i as int),
                    current,
                ),
            decreases n - i,
        {
            let ghost prev = updates@.map_values(|x: String| x@);
            proof {
                assert(candidates@.subrange(0, i + 1).drop_last() =~= candidates@.subrange(
                    0,
                    i as int,
                ));
                assert(candidates@.subrange(0, i + 1).last() == candidates@[i as int]);
            }
            let c = &candidates[i];
            if self.is_selected(c, &current) {
                let line = self.candidate_line(c);
                updates.push(line);
                proof {
                    assert(updates@.map_values(|x: String| x@) =~= prev.push(
                        spec_candidate_line(candidates@[i as int]),
                    ));
                    assert(updates@.map_values(|x: String| x@) =~= spec_selected_updates(
                        candidates@.subrange(0, i + 1),
                        current,
                    ));
                }
            }
            i = i + 1;
        }
        proof {
            assert(candidates@.subrange(0, n as int) =~= candidates@);
        }
        UpdatesInfo { updates }
    }

    /// The snapshot shown when the metadata has an unexpected shape.
    pub fn unexpected_structure_info(&self) -> (r: UpdatesInfo)
        ensures
            r.updates@.len() == 1,
            r.updates@[0]@ == "Unable to read updates: unexpected plist structure"@,
    {
        let mut updates: Vec<String> = Vec::new();
        updates.push(String::from_str("Unable to read updates: unexpected plist structure"));
        UpdatesInfo { updates }
    }
}

impl Default for UpdatesInfoBuilder {
    fn default() -> (r: Self) {
        UpdatesInfoBuilder {  }
    }
}

/// Renders the updates snapshot: one line per update under the label,
/// or a single line saying none are available.
pub struct UpdatesSegmentRenderer {
    pub info: UpdatesInfo,
}

impl UpdatesSegmentRenderer {
    pub fn new(info: UpdatesInfo) -> (r: Self)
        ensures
            r.info == info,
    {
        UpdatesSegmentRenderer { info }
    }
}

impl SegmentRenderer for UpdatesSegmentRenderer {
    open spec fn spec_lines(&self) -> Seq<Seq<char>> {
        if self.info.updates@.len() == 0 {
            seq![spec_label_line("Updates"@, "No updates available"@)]
        } else {
            spec_attach_label(
                "Updates"@,
                self.info.updates@.map_values(|x: String| x@),
            )
        }
    }

    fn height(&self) -> (h: usize) {
        if self.info.updates.len() == 0 {
            1
        } else {
            self.info.updates.len()
        }
    }

    fn render_lines(&self) -> (r: Vec<String>) {
        let mut v: Vec<String> = Vec::new();
        let n = self.info.updates.len();
        if n == 0 {
            v.push(label_line("Updates", "No updates available"));
            proof {
                assert(v@.map_values(|x: String| x@) =~= self.spec_lines());
            }
            return v;
        }
        let ghost ups = self.info.updates@.map_values(|x: String| x@);
        let mut i: usize = 0;
        while i < n
            invariant
                n == self.info.updates@.len(),
                n > 0,
                ups == self.info.updates@.map_values(|x: String| x@),
                i <= n,
                v@.map_values(|x: String| x@) == spec_attach_label(
                    "Updates"@,
                    ups,
                ).subrange(0, i as int),
            decreases n - i,
        {
            let ghost prev = v@.map_values(|x: String| x@);
            let line = if i == 0 {
                label_line("Updates", self.info.updates[i].as_str())
            } else {
                continuation_line(self.info.updates[i].as_str())
            };
            v.push(line);
            i = i + 1;
            proof {
                assert(spec_attach_label("Updates"@, ups).subrange(0, i as int)
                    =~= spec_attach_label("Updates"@, ups).subrange(0, i - 1).push(
                    spec_attach_label("Updates"@, ups)[i - 1],
                ));
                assert(v@.map_values(|x: String| x@) =~= prev.push(
                    spec_attach_label("Updates"@, ups)[i - 1],
                ));
            }
        }
        proof {
            assert(spec_attach_label("Updates"@, ups).subrange(0, n as int) =~= spec_attach_label(
                "Updates"@,
                ups,
            ));
            assert(v@.map_values(|x: String| x@) =~= self.spec_lines());
        }
        v
    }
}

} // verus!
