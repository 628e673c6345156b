//! Interest-rate model for green-bond projects.
//!
//! The credit-quality and green-impact scores (each 0–100) are averaged with
//! integer division into a combined score, which earns a proportional
//! discount off a base rate:
//!
//! ```text
//! combined_score = (credit_quality + green_impact) / 2
//! discount       = combined_score × max_discount_bps / 100
//! rate           = max(base_rate_bps − discount, 0)
//! ```
use vstd::prelude::*;

verus! {

/// Base interest rate in basis points (10 %): what a zero-score project pays.
pub const BASE_RATE_BPS: u32 = 1_000;

/// Largest discount in basis points (5 %), earned by a perfect-score project.
pub const MAX_DISCOUNT_BPS: u32 = 500;

/// Upper bound for credit-quality, green-impact and reputation scores.
pub const MAX_SCORE: u32 = 100;

/// The combined 0–100 score of a project: the integer mean of its two scores.
pub open spec fn combined_score(credit_quality: int, green_impact: int) -> int {
    (credit_quality + green_impact) / 2
}

/// The rate formula over mathematical integers.
pub open spec fn interest_rate(
    base_rate_bps: int,
    max_discount_bps: int,
    credit_quality: int,
    green_impact: int,
) -> int {
    let discount = combined_score(credit_quality, green_impact) * max_discount_bps / 100;
    if discount > base_rate_bps {
        0
    } else {
        base_rate_bps - discount
    }
}

/// The inputs on which the rate formula stays within `u32` arithmetic.
pub open spec fn interest_rate_in_range(
    max_discount_bps: u32,
    credit_quality: u32,
    green_impact: u32,
) -> bool {
    &&& credit_quality + green_impact <= u32::MAX
    &&& combined_score(credit_quality as int, green_impact as int) * max_discount_bps <= u32::MAX
}

/// The rate of a project under the contract's fixed base rate and discount.
pub open spec fn project_rate(credit_quality: int, green_impact: int) -> int {
    interest_rate(BASE_RATE_BPS as int, MAX_DISCOUNT_BPS as int, credit_quality, green_impact)
}

/// Annualised interest rate in basis points for the given scores.
pub fn calculate_interest_rate(
    base_rate_bps: u32,
    max_discount_bps: u32,
    credit_quality: u32,
    green_impact: u32,
) -> (rate: u32)
    requires
        interest_rate_in_range(max_discount_bps, credit_quality, green_impact),
    ensures
        rate == interest_rate(
            base_rate_bps as int,
            max_discount_bps as int,
            credit_quality as int,
            green_impact as int,
        ),
{
    let combined_score = (credit_quality + green_impact) / 2;
    let discount = (combined_score * max_discount_bps) / 100;
    if discount > base_rate_bps {
        0
    } else {
        base_rate_bps - discount
    }
}

/// The registry's rate for a project: [`calculate_interest_rate`] with
/// [`BASE_RATE_BPS`] and [`MAX_DISCOUNT_BPS`].
pub fn compute_rate(credit_quality: u32, green_impact: u32) -> (rate: u32)
    requires
        interest_rate_in_range(MAX_DISCOUNT_BPS, credit_quality, green_impact),
    ensures
        rate == project_rate(credit_quality as int, green_impact as int),
{
    calculate_interest_rate(BASE_RATE_BPS, MAX_DISCOUNT_BPS, credit_quality, green_impact)
}

/// Scores within 0–100 never leave the `u32` range of the rate formula.
pub proof fn lemma_scores_in_range(credit_quality: u32, green_impact: u32)
    requires
        credit_quality <= MAX_SCORE,
        green_impact <= MAX_SCORE,
    ensures
        interest_rate_in_range(MAX_DISCOUNT_BPS, credit_quality, green_impact),
{
}

/// For scores within 0–100 and a discount no larger than the base rate, the
/// rate lies between `base_rate_bps − max_discount_bps` (both scores 100) and
/// `base_rate_bps` (both scores 0).
pub proof fn law_rate_bounds(
    base_rate_bps: int,
    max_discount_bps: int,
    credit_quality: int,
    green_impact: int,
)
    requires
        0 <= max_discount_bps <= base_rate_bps,
        0 <= credit_quality <= 100,
        0 <= green_impact <= 100,
    ensures
        base_rate_bps - max_discount_bps <= interest_rate(
            base_rate_bps,
            max_discount_bps,
            credit_quality,
            green_impact,
        ) <= base_rate_bps,
{
    let c = combined_score(credit_quality, green_impact);
    assert(0 <= c <= 100);
    assert(0 <= c * max_discount_bps <= 100 * max_discount_bps) by (nonlinear_arith)
        requires
            0 <= c <= 100,
            0 <= max_discount_bps,
    ;
    assert(c * max_discount_bps / 100 <= max_discount_bps) by (nonlinear_arith)
        requires
            0 <= c * max_discount_bps <= 100 * max_discount_bps,
    ;
}

/// Raising either score never raises the rate (the rate is monotonically
/// non-increasing in each score), and the two scores are interchangeable.
pub proof fn law_rate_monotone_and_symmetric(
    base_rate_bps: int,
    max_discount_bps: int,
    cq1: int,
    gi1: int,
    cq2: int,
    gi2: int,
)
    requires
        0 <= max_discount_bps,
        0 <= cq1 <= cq2,
        0 <= gi1 <= gi2,
    ensures
        interest_rate(base_rate_bps, max_discount_bps, cq2, gi2) <= interest_rate(
            base_rate_bps,
            max_discount_bps,
            cq1,
            gi1,
        ),
        interest_rate(base_rate_bps, max_discount_bps, cq1, gi1) == interest_rate(
            base_rate_bps,
            max_discount_bps,
            gi1,
            cq1,
        ),
{
    let c1 = combined_score(cq1, gi1);
    let c2 = combined_score(cq2, gi2);
    assert(c1 <= c2);
    assert(c1 * max_discount_bps <= c2 * max_discount_bps) by (nonlinear_arith)
        requires
            0 <= c1 <= c2,
            0 <= max_discount_bps,
    ;
    assert(c1 * max_discount_bps / 100 <= c2 * max_discount_bps / 100) by (nonlinear_arith)
        requires
            c1 * max_discount_bps <= c2 * max_discount_bps,
    ;
}

/// The registry's rate ranges from 500 bps (both scores 100) to 1 000 bps
/// (both scores 0).
pub proof fn law_project_rate_range(credit_quality: int, green_impact: int)
    requires
        0 <= credit_quality <= 100,
        0 <= green_impact <= 100,
    ensures
        500 <= project_rate(credit_quality, green_impact) <= 1000,
        project_rate(0, 0) == 1000,
        project_rate(100, 100) == 500,
{
    law_rate_bounds(1000, 500, credit_quality, green_impact);
}

} // verus!
