//! Elapsed time rendered for people: a second count collapsed to its
//! coarsest non-zero unit ("2 days", "3 hours"), and the uptime string
//! that lists every non-zero unit.

use vstd::prelude::*;
use crate::text::{push_u64, spec_dec};

verus! {

pub const SECONDS_PER_MINUTE: u64 = 60;

pub const SECONDS_PER_HOUR: u64 = 3600;

pub const SECONDS_PER_DAY: u64 = 86400;

/// `"s"` when `n` calls for a plural, nothing when it does not.
pub open spec fn spec_plural_s(n: nat) -> Seq<char> {
    if n == 1 {
        Seq::empty()
    } else {
        "s"@
    }
}

/// A count followed by its unit name, pluralized: `3 hours`, `1 day`.
pub open spec fn spec_unit_count(n: nat, unit: Seq<char>) -> Seq<char> {
    spec_dec(n) + " "@ + unit + spec_plural_s(n)
}

/// A second count collapsed to its coarsest non-zero unit.  Anything
/// under a minute is "less than a minute"; otherwise whole minutes,
/// hours or days, truncated.
pub open spec fn spec_humanize(secs: nat) -> Seq<char> {
    if secs < SECONDS_PER_MINUTE {
        "less than a minute"@
    } else if secs < SECONDS_PER_HOUR {
        spec_unit_count(secs / (SECONDS_PER_MINUTE as nat), "minute"@)
    } else if secs < SECONDS_PER_DAY {
        spec_unit_count(secs / (SECONDS_PER_HOUR as nat), "hour"@)
    } else {
        spec_unit_count(secs / (SECONDS_PER_DAY as nat), "day"@)
    }
}

/// Renders `secs` as its coarsest non-zero unit.
pub fn humanize_seconds(secs: u64) -> (r: String)
    ensures
        r@ == spec_humanize(secs as nat),
{
    let mut s = String::new();
    if secs < SECONDS_PER_MINUTE {
        s.append("less than a minute");
        assert(s@ =~= spec_humanize(secs as nat));
    } else if secs < SECONDS_PER_HOUR {
        push_unit_count(&mut s, secs / SECONDS_PER_MINUTE, "minute");
        assert(s@ =~= spec_humanize(secs as nat));
    } else if secs < SECONDS_PER_DAY {
        push_unit_count(&mut s, secs / SECONDS_PER_HOUR, "hour");
        assert(s@ =~= spec_humanize(secs as nat));
    } else {
        push_unit_count(&mut s, secs / SECONDS_PER_DAY, "day");
        assert(s@ =~= spec_humanize(secs as nat));
    }
    s
}

/// Appends a pluralized unit count to `s`.
fn push_unit_count(s: &mut String, n: u64, unit: &str)
    ensures
        final(s)@ == old(s)@ + spec_unit_count(n as nat, unit@),
{
    push_u64(s, n);
    s.append(" ");
    s.append(unit);
    if n != 1 {
        s.append("s");
    }
    assert(s@ =~= old(s)@ + spec_unit_count(n as nat, unit@));
}

/// One joined step of the uptime string: appends `n` of `unit` when `n`
/// is non-zero, with a comma separator when something already stands.
pub open spec fn spec_join_unit(acc: Seq<char>, n: nat, unit: Seq<char>) -> Seq<char> {
    if n == 0 {
        acc
    } else if acc.len() == 0 {
        spec_unit_count(n, unit)
    } else {
        acc + ", "@ + spec_unit_count(n, unit)
    }
}

/// The uptime string: every non-zero unit from days down to seconds,
/// comma-separated; a bare second count when everything is zero.
pub open spec fn spec_uptime(secs: nat) -> Seq<char> {
    let d = secs / (SECONDS_PER_DAY as nat);
    let h = (secs % (SECONDS_PER_DAY as nat)) / (SECONDS_PER_HOUR as nat);
    let m = (secs % (SECONDS_PER_HOUR as nat)) / (SECONDS_PER_MINUTE as nat);
    let sec = secs % (SECONDS_PER_MINUTE as nat);
    let a1 = spec_join_unit(Seq::empty(), d, "day"@);
    let a2 = spec_join_unit(a1, h, "hour"@);
    let a3 = spec_join_unit(a2, m, "minute"@);
    if sec > 0 || a3.len() == 0 {
        if a3.len() == 0 {
            spec_unit_count(sec, "second"@)
        } else {
            a3 + ", "@ + spec_unit_count(sec, "second"@)
        }
    } else {
        a3
    }
}

/// Renders `secs` as the uptime string.
pub fn format_uptime(secs: u64) -> (r: String)
    ensures
        r@ == spec_uptime(secs as nat),
{
    let d = secs / SECONDS_PER_DAY;
    let h = (secs % SECONDS_PER_DAY) / SECONDS_PER_HOUR;
    let m = (secs % SECONDS_PER_HOUR) / SECONDS_PER_MINUTE;
    let sec = secs % SECONDS_PER_MINUTE;
    let mut s = String::new();
    if d > 0 {
        push_unit_count(&mut s, d, "day");
    }
    assert(s@ =~= spec_join_unit(Seq::empty(), d as nat, "day"@));
    let ghost a1 = s@;
    if h > 0 {
        if s.unicode_len() > 0 {
            s.append(", ");
        }
        push_unit_count(&mut s, h, "hour");
    }
    assert(s@ =~= spec_join_unit(a1, h as nat, "hour"@));
    let ghost a2 = s@;
    if m > 0 {
        if s.unicode_len() > 0 {
            s.append(", ");
        }
        push_unit_count(&mut s, m, "minute");
    }
    assert(s@ =~= spec_join_unit(a2, m as nat, "minute"@));
    let ghost a3 = s@;
    if sec > 0 || s.unicode_len() == 0 {
        if s.unicode_len() > 0 {
            s.append(", ");
        }
        push_unit_count(&mut s, sec, "second");
    }
    assert(s@ =~= spec_uptime(secs as nat));
    s
}

} // verus!
