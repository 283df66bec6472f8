//! The royalty policy: one threshold, two basis-points tiers. A value
//! strictly above the threshold earns the large tier; a value equal to or
//! below it earns the default tier.

use vstd::prelude::*;
use crate::tx::Config;
use crate::u256::Uint256;

verus! {

/// The basis points owed for a transaction value under a threshold and the
/// two tier values: strictly greater than the threshold means the large
/// tier, anything else the default tier.
pub open spec fn spec_royalty_bps(
    value: nat,
    threshold: nat,
    default_bps: u64,
    large_bps: u64,
) -> u64 {
    if value > threshold {
        large_bps
    } else {
        default_bps
    }
}

/// Maps a transaction value to its basis-points tier.
pub fn royalty_bps(value: &Uint256, cfg: &Config) -> (r: u64)
    ensures
        r == spec_royalty_bps(
            value.as_nat(),
            cfg.royalty_threshold.as_nat(),
            cfg.default_bps,
            cfg.large_bps,
        ),
{
    if value.gt(&cfg.royalty_threshold) {
        cfg.large_bps
    } else {
        cfg.default_bps
    }
}

/// The tiering boundary: a value exactly at the threshold earns the default
/// tier, and one unit above it the large tier.
pub proof fn lemma_royalty_boundary(threshold: nat, default_bps: u64, large_bps: u64)
    ensures
        spec_royalty_bps(threshold, threshold, default_bps, large_bps) == default_bps,
        spec_royalty_bps(threshold + 1, threshold, default_bps, large_bps) == large_bps,
{
}

} // verus!
