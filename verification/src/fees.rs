//! Fee arithmetic of the vault.
use vstd::prelude::*;

verus! {

/// Basis points in one whole (10 000 bps = 100 %).
pub const BPS_DENOMINATOR: i128 = 10_000;

/// Integer division rounding toward zero, as Rust's `/` on signed integers.
pub open spec fn trunc_div(a: int, b: int) -> int
    recommends
        b > 0,
{
    if a >= 0 {
        a / b
    } else {
        -((-a) / b)
    }
}

/// The fee charged on `amount` at `fee_bps` basis points.
pub open spec fn bps_fee(amount: int, fee_bps: int) -> int {
    trunc_div(amount * fee_bps, BPS_DENOMINATOR as int)
}

/// Performance/management fee accrued on a yield or deposit amount:
/// `yield_amount × fee_bps / 10 000`, rounded toward zero.
pub fn calculate_performance_fee(yield_amount: i128, fee_bps: u32) -> (fee: i128)
    requires
        i128::MIN <= yield_amount * fee_bps <= i128::MAX,
    ensures
        fee == bps_fee(yield_amount as int, fee_bps as int),
{
    (yield_amount * (fee_bps as i128)) / BPS_DENOMINATOR
}

/// The effective management-fee rate for a deposit: the discounted rate when a
/// volume tier is configured and the deposit reaches its threshold, the flat
/// base rate otherwise.
pub open spec fn dynamic_fee_bps(
    deposit_amount: i128,
    base_bps: u32,
    volume_threshold: Option<i128>,
    discounted_bps: Option<u32>,
) -> u32 {
    match (volume_threshold, discounted_bps) {
        (Some(threshold), Some(discounted)) => if deposit_amount >= threshold {
            discounted
        } else {
            base_bps
        },
        _ => base_bps,
    }
}

/// Two-tier dynamic fee schedule: see [`dynamic_fee_bps`].
pub fn calculate_dynamic_fee_bps(
    deposit_amount: i128,
    base_bps: u32,
    volume_threshold: Option<i128>,
    discounted_bps: Option<u32>,
) -> (bps: u32)
    ensures
        bps == dynamic_fee_bps(deposit_amount, base_bps, volume_threshold, discounted_bps),
{
    match (volume_threshold, discounted_bps) {
        (Some(threshold), Some(discounted)) if deposit_amount >= threshold => discounted,
        _ => base_bps,
    }
}

/// A fee of at most 100 % of a non-negative amount is never negative and
/// never exceeds the amount; a higher rate never yields a smaller fee.
pub proof fn law_fee_bounded_and_monotone(amount: int, bps1: int, bps2: int)
    requires
        0 <= amount,
        0 <= bps1 <= bps2 <= BPS_DENOMINATOR,
    ensures
        0 <= bps_fee(amount, bps1) <= bps_fee(amount, bps2) <= amount,
{
    assert(0 <= amount * bps1 <= amount * bps2 <= amount * 10000) by (nonlinear_arith)
        requires
            0 <= amount,
            0 <= bps1 <= bps2 <= 10000,
    ;
    assert(amount * bps1 / 10000 <= amount * bps2 / 10000) by (nonlinear_arith)
        requires
            0 <= amount * bps1 <= amount * bps2,
    ;
    assert(amount * bps2 / 10000 <= amount) by (nonlinear_arith)
        requires
            0 <= amount * bps2 <= amount * 10000,
    ;
}

} // verus!
