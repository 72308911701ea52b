//! Byte counts rendered in gigabytes.
//!
//! Values under two gigabytes are shown with two decimal places; larger
//! values are rounded to the nearest whole gigabyte.  The threshold keeps
//! small values from collapsing to `0 GB` noise while sparing large values
//! false precision.

use vstd::prelude::*;
use crate::text::{push_u64, spec_dec, spec_digit_char};

verus! {

/// Bytes per gigabyte (a binary gigabyte, 1024 * 1024 * 1024).
pub const BYTES_PER_GB: u64 = 1073741824;

/// `bytes` in hundredths of a gigabyte, rounded to nearest with ties to
/// even, as the two-decimal rendering does.
pub open spec fn spec_gb_hundredths(bytes: nat) -> nat {
    let q = (bytes * 100) / (BYTES_PER_GB as nat);
    let r = (bytes * 100) % (BYTES_PER_GB as nat);
    if r > (BYTES_PER_GB as nat) / 2 {
        q + 1
    } else if r == (BYTES_PER_GB as nat) / 2 {
        if q % 2 == 0 {
            q
        } else {
            q + 1
        }
    } else {
        q
    }
}

/// `bytes` in whole gigabytes, rounded to nearest with halves away from
/// zero.
pub open spec fn spec_gb_whole(bytes: nat) -> nat {
    if bytes % (BYTES_PER_GB as nat) >= (BYTES_PER_GB as nat) / 2 {
        bytes / (BYTES_PER_GB as nat) + 1
    } else {
        bytes / (BYTES_PER_GB as nat)
    }
}

/// The rendering of a byte count: `X.YZ GB` under two gigabytes, a whole
/// number of gigabytes at or above that.
pub open spec fn spec_format_gb(bytes: nat) -> Seq<char> {
    if bytes < 2 * (BYTES_PER_GB as nat) {
        let h = spec_gb_hundredths(bytes);
        spec_dec(h / 100) + seq!['.'] + seq![
            spec_digit_char((h / 10) % 10),
            spec_digit_char(h % 10),
        ] + " GB"@
    } else {
        spec_dec(spec_gb_whole(bytes)) + " GB"@
    }
}

/// Renders `bytes` in gigabytes.
pub fn format_gb(bytes: u64) -> (r: String)
    ensures
        r@ == spec_format_gb(bytes as nat),
{
    let mut s = String::new();
    if bytes < 2 * BYTES_PER_GB {
        let product = bytes * 100;
        let q = product / BYTES_PER_GB;
        let rem = product % BYTES_PER_GB;
        let h = if rem > BYTES_PER_GB / 2 {
            q + 1
        } else if rem == BYTES_PER_GB / 2 {
            if q % 2 == 0 {
                q
            } else {
                q + 1
            }
        } else {
            q
        };
        push_u64(&mut s, h / 100);
        proof {
            reveal_strlit(".");
            assert("."@ =~= seq!['.']);
        }
        s.append(".");
        let d1 = (h / 10) % 10;
        let d2 = h % 10;
        push_digit_pair(&mut s, d1, d2);
        s.append(" GB");
        assert(s@ =~= spec_format_gb(bytes as nat));
    } else {
        let whole = if bytes % BYTES_PER_GB >= BYTES_PER_GB / 2 {
            bytes / BYTES_PER_GB + 1
        } else {
            bytes / BYTES_PER_GB
        };
        push_u64(&mut s, whole);
        s.append(" GB");
        assert(s@ =~= spec_format_gb(bytes as nat));
    }
    s
}

/// Appends two decimal digits.
fn push_digit_pair(s: &mut String, d1: u64, d2: u64)
    requires
        d1 < 10,
        d2 < 10,
    ensures
        final(s)@ == old(s)@ + seq![
            spec_digit_char(d1 as nat),
            spec_digit_char(d2 as nat),
        ],
{
    push_u64(s, d1);
    push_u64(s, d2);
    assert(s@ =~= old(s)@ + seq![
        spec_digit_char(d1 as nat),
        spec_digit_char(d2 as nat),
    ]);
}

} // verus!
