//! Plain data and formatting for the source-archive client. The network
//! calls themselves live with the callers.

use vstd::prelude::*;

use crate::numfmt::{spec_dec_nat, u64_to_dec};

verus! {

/// The published description of the latest source-data build.
#[derive(Debug)]
pub struct SdeInfo {
    pub key: String,
    pub build_number: u64,
    pub release_date: String,
}

/// The rounded tenths of `b` in units of `unit * 10`.
pub open spec fn spec_round_tenths(b: int, unit: int) -> int {
    b / unit + (if 2 * (b % unit) >= unit {
        1int
    } else {
        0int
    })
}

/// A quantity of tenths rendered with one decimal place.
pub open spec fn spec_tenths_text(t: int) -> Seq<char> {
    spec_dec_nat(t / 10) + seq!['.'] + spec_dec_nat(t % 10)
}

/// One byte count in human-readable form: whole bytes below one thousand,
/// else one decimal place of the matching unit.
pub open spec fn spec_fmt_size(b: int) -> Seq<char> {
    if b >= 1000000000 {
        spec_tenths_text(spec_round_tenths(b, 100000000)) + " GB"@
    } else if b >= 1000000 {
        spec_tenths_text(spec_round_tenths(b, 100000)) + " MB"@
    } else if b >= 1000 {
        spec_tenths_text(spec_round_tenths(b, 100)) + " KB"@
    } else {
        spec_dec_nat(b) + " B"@
    }
}

/// A download progress label: the current and the total byte count, both
/// human-readable.
pub open spec fn spec_format_bytes(current: int, total: int) -> Seq<char> {
    spec_fmt_size(current) + " / "@ + spec_fmt_size(total)
}

fn fmt_size(b: u64) -> (s: String)
    ensures
        s@ == spec_fmt_size(b as int),
{
    if b >= 1000000000 {
        fmt_tenths(b, 100000000, " GB")
    } else if b >= 1000000 {
        fmt_tenths(b, 100000, " MB")
    } else if b >= 1000 {
        fmt_tenths(b, 100, " KB")
    } else {
        let mut s = u64_to_dec(b);
        s.append(" B");
        s
    }
}

fn fmt_tenths(b: u64, unit: u64, suffix: &str) -> (s: String)
    requires
        100 <= unit <= 100000000,
    ensures
        s@ == spec_tenths_text(spec_round_tenths(b as int, unit as int)) + suffix@,
{
    let mut t = b / unit;
    proof {
        assert(t <= b / 100) by (nonlinear_arith)
            requires
                100 <= unit && t == b / unit,
        ;
        assert(b / 100 < u64::MAX);
    }
    if 2 * (b % unit) >= unit {
        t = t + 1;
    }
    let mut s = u64_to_dec(t / 10);
    crate::strutil::push_char(&mut s, '.');
    s.append(u64_to_dec(t % 10).as_str());
    s.append(suffix);
    proof {
        assert(s@ =~= spec_tenths_text(spec_round_tenths(b as int, unit as int)) + suffix@);
    }
    s
}

/// Formats a download position as `current / total`, each human-readable.
pub fn format_bytes(current: u64, total: u64) -> (s: String)
    ensures
        s@ == spec_format_bytes(current as int, total as int),
{
    let mut s = fmt_size(current);
    s.append(" / ");
    s.append(fmt_size(total).as_str());
    proof {
        assert(s@ =~= spec_format_bytes(current as int, total as int));
    }
    s
}

} // verus!
