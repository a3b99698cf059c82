//! Conversion between v1 CPU shares and v2 CPU weight.
//!
//! The v1 default of 1024 shares corresponds to the v2 default weight
//! of 100, so shares map to `shares * 100 / 1024` and weight maps back
//! to `weight * 1024 / 100`.  Both directions truncate (floor); the
//! loss is deliberate and kept bit-exact for compatibility.

use vstd::prelude::*;

verus! {

/// The v2 weight written for a v1 share count.
pub open spec fn spec_shares_to_weight(shares: nat) -> nat {
    shares * 100 / 1024
}

/// The v1 share count reported for a v2 weight.
pub open spec fn spec_weight_to_shares(weight: nat) -> nat {
    weight * 1024 / 100
}

/// Converts v1 CPU shares to v2 CPU weight, flooring.
pub fn shares_to_weight(shares: u64) -> (w: u64)
    requires
        shares * 100 <= u64::MAX,
    ensures
        w == spec_shares_to_weight(shares as nat),
{
    (shares * 100) / 1024
}

/// Converts v2 CPU weight to v1 CPU shares, flooring.
pub fn weight_to_shares(weight: u64) -> (s: u64)
    requires
        weight * 1024 <= u64::MAX,
    ensures
        s == spec_weight_to_shares(weight as nat),
{
    (weight * 1024) / 100
}

/// Converting a weight to shares and back never rounds up: both
/// directions floor, so the round trip can only lose to truncation.
pub proof fn lemma_weight_round_trip_floors(w: nat)
    ensures
        spec_shares_to_weight(spec_weight_to_shares(w)) <= w,
{
    let x = w * 1024;
    let s = x / 100;
    vstd::arithmetic::div_mod::lemma_remainder_lower(x as int, 100);
    vstd::arithmetic::div_mod::lemma_div_is_ordered((s * 100) as int, x as int, 1024);
    vstd::arithmetic::div_mod::lemma_div_multiples_vanish(w as int, 1024);
    assert(x as int == 1024 * w);
}

/// Converting shares to weight and back never rounds up either.
pub proof fn lemma_shares_round_trip_floors(s: nat)
    ensures
        spec_weight_to_shares(spec_shares_to_weight(s)) <= s,
{
    let x = s * 100;
    let w = x / 1024;
    vstd::arithmetic::div_mod::lemma_remainder_lower(x as int, 1024);
    vstd::arithmetic::div_mod::lemma_div_is_ordered((w * 1024) as int, x as int, 100);
    vstd::arithmetic::div_mod::lemma_div_multiples_vanish(s as int, 100);
    assert(x as int == 100 * s);
}

} // verus!
