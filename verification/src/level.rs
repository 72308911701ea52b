//! Bucketing of scalar usage ratios against configurable thresholds.
//!
//! A used/total ratio lands in exactly one of three buckets, compared
//! against two percentage thresholds with inclusive lower bounds; the
//! renderers pick one highlight color per bucket and never a fourth
//! state.

use vstd::prelude::*;

verus! {

/// The three display buckets of a usage ratio.
#[derive(Clone, Copy, Debug, PartialEq, Eq, Structural)]
pub enum UsageLevel {
    Normal,
    Warning,
    Critical,
}

/// The bucket of `used / total` against two percentage thresholds.
/// The bounds are inclusive: a ratio exactly at a threshold takes the
/// more severe bucket.  An empty total is never highlighted.
pub open spec fn spec_usage_level(used: nat, total: nat, warning_percent: nat, critical_percent: nat) -> UsageLevel {
    if total == 0 {
        UsageLevel::Normal
    } else if used * 100 >= critical_percent * total {
        UsageLevel::Critical
    } else if used * 100 >= warning_percent * total {
        UsageLevel::Warning
    } else {
        UsageLevel::Normal
    }
}

/// Buckets `used / total` against the two thresholds.
pub fn classify_usage(used: u64, total: u64, warning_percent: u64, critical_percent: u64) -> (r:
    UsageLevel)
    ensures
        r == spec_usage_level(
            used as nat,
            total as nat,
            warning_percent as nat,
            critical_percent as nat,
        ),
{
    if total == 0 {
        return UsageLevel::Normal;
    }
    let scaled: u128 = (used as u128) * 100;
    let crit: u128 = mul_u64(critical_percent, total);
    let warn: u128 = mul_u64(warning_percent, total);
    if scaled >= crit {
        UsageLevel::Critical
    } else if scaled >= warn {
        UsageLevel::Warning
    } else {
        UsageLevel::Normal
    }
}

/// The product of two machine words, exact in a double-width word.
fn mul_u64(a: u64, b: u64) -> (r: u128)
    ensures
        r == a as nat * b as nat,
{
    proof {
        lemma_mul_u64_fits(a as nat, b as nat);
    }
    (a as u128) * (b as u128)
}

/// The product of two machine words fits in a double-width word.
proof fn lemma_mul_u64_fits(a: nat, b: nat)
    requires
        a <= u64::MAX,
        b <= u64::MAX,
    ensures
        a * b <= u64::MAX * u64::MAX,
{
    assert(a * b <= u64::MAX * u64::MAX) by (nonlinear_arith)
        requires
            a <= u64::MAX,
            b <= u64::MAX,
    ;
}

/// The bucket of a load average, in hundredths, against the core count:
/// under nine tenths of the cores is unremarkable, under one and a half
/// times the cores is elevated, anything else is critical.
pub open spec fn spec_load_level(load_hundredths: nat, cores: nat) -> UsageLevel {
    if load_hundredths < cores * 90 {
        UsageLevel::Normal
    } else if load_hundredths < cores * 150 {
        UsageLevel::Warning
    } else {
        UsageLevel::Critical
    }
}

/// Buckets one load average, given in hundredths, against the core count.
pub fn classify_load(load_hundredths: u64, cores: u64) -> (r: UsageLevel)
    ensures
        r == spec_load_level(load_hundredths as nat, cores as nat),
{
    let scaled: u128 = load_hundredths as u128;
    let warn: u128 = mul_u64(cores, 90);
    let crit: u128 = mul_u64(cores, 150);
    if scaled < warn {
        UsageLevel::Normal
    } else if scaled < crit {
        UsageLevel::Warning
    } else {
        UsageLevel::Critical
    }
}

} // verus!
