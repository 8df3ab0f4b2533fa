//! Funding settlement: the per-market premium-fraction series.
//!
//! Each funding settlement appends one entry to a market's append-only log
//! of cumulative premium fractions; positions settle lazily against the
//! latest entry when they are next read or touched.

use vstd::prelude::*;
use crate::integer::{Integer, abs_int};
use crate::types::VammMap;

verus! {

/// The premium-fraction log as a sequence of mathematical integers.
pub open spec fn premiums(vamm_map: VammMap) -> Seq<int> {
    vamm_map.cumulative_premium_fractions@.map(|i: int, p: Integer| p.as_int())
}

/// The latest cumulative premium fraction of a log: its last entry, or zero
/// while the log is empty.
pub open spec fn spec_latest(series: Seq<int>) -> int {
    if series.len() == 0 {
        0
    } else {
        series.last()
    }
}

/// What appending a premium fraction does to a log: the new cumulative
/// entry is the fraction plus the previous cumulative value.
pub open spec fn spec_append(series: Seq<int>, premium_fraction: int) -> Seq<int> {
    series.push(premium_fraction + spec_latest(series))
}

/// The latest cumulative premium fraction of a market.
pub fn latest_cumulative_premium_fraction(vamm_map: &VammMap) -> (r: Integer)
    requires
        vamm_map.well_formed(),
    ensures
        r.as_int() == spec_latest(premiums(*vamm_map)),
        r.well_formed(),
{
    let n: usize = vamm_map.cumulative_premium_fractions.len();
    if n == 0 {
        Integer::zero()
    } else {
        vamm_map.cumulative_premium_fractions[n - 1]
    }
}

/// Appends a premium fraction to a market's log and returns the new latest
/// cumulative value.
pub fn append_cumulative_premium_fraction(vamm_map: &mut VammMap, premium_fraction: Integer) -> (r:
    Integer)
    requires
        old(vamm_map).well_formed(),
        premium_fraction.well_formed(),
        abs_int(premium_fraction.as_int() + spec_latest(premiums(*old(vamm_map)))) <= u128::MAX
            as int,
    ensures
        premiums(*final(vamm_map)) == spec_append(premiums(*old(vamm_map)), premium_fraction.as_int()),
        r.as_int() == spec_latest(premiums(*final(vamm_map))),
        r.as_int() == premium_fraction.as_int() + spec_latest(premiums(*old(vamm_map))),
        final(vamm_map).last_restriction_block == old(vamm_map).last_restriction_block,
        final(vamm_map).well_formed(),
        r.well_formed(),
{
    let previous: Integer = latest_cumulative_premium_fraction(vamm_map);
    let latest: Integer = premium_fraction.checked_add(&previous).unwrap();
    vamm_map.cumulative_premium_fractions.push(latest);
    proof {
        assert(premiums(*vamm_map) =~= spec_append(
            premiums(*old(vamm_map)),
            premium_fraction.as_int(),
        ));
    }
    latest
}

/// Funding accumulation is associative: appending premium fractions `p1`
/// and then `p2` leaves the same cumulative value as appending `p1 + p2` in
/// one step.
pub proof fn lemma_funding_accumulation_associative(series: Seq<int>, p1: int, p2: int)
    ensures
        spec_latest(spec_append(spec_append(series, p1), p2)) == spec_latest(
            spec_append(series, p1 + p2),
        ),
{
}

} // verus!
