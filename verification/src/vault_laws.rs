//! Properties of the vault that span several calls.
use vstd::prelude::*;
use crate::common::Address;
use crate::fees::trunc_div;
use crate::registry::{RegistryState, ids_bounded};
use crate::registry_types::{ProjectInfo, RegistryError};
use crate::vault_types::VaultError;
use crate::vault::{
    MAX_COMPLIANCE_EVENTS_PER_CALL, MAX_FLASH_LOAN_FEE, MIN_WITHDRAW, VaultState, assets_for,
    deposit_locked, expected_returns, fund_fits, investment_of, nav, returns_upto,
    carbon_of, carbon_transfer_outcome, compliance_listing, compliance_range, completion_error,
    deposit_outcome, fee_bps_of, flash_fee, fund_outcome, premium_of, project_return, range_last,
    settle_count, shares_for, vault_ok, withdraw_outcome,
};
use crate::wormhole::ParsedVaaInfo;

verus! {

/// Depositing and at once withdrawing the shares received never pays out
/// more than was deposited: the insurance premium and rounding stay with
/// the vault. `supply` and `assets` are the share supply and net asset
/// value before the deposit; an empty vault must hold no assets.
pub proof fn law_deposit_withdraw_never_profits(amount: int, supply: int, assets: int)
    requires
        amount > 0,
        supply >= 0,
        assets >= 0,
        supply == 0 ==> assets == 0,
        supply > 0 ==> assets > 0,
    ensures
        ({
            let shares = shares_for(amount - premium_of(amount), supply, assets);
            &&& shares >= 0
            &&& assets_for(shares, supply + shares, assets + amount) <= amount
        }),
{
    let premium = premium_of(amount);
    let inv = amount - premium;
    assert(0 <= premium <= amount) by (nonlinear_arith)
        requires
            amount > 0,
            premium == amount * 50 / 10_000,
    ;
    let shares = shares_for(inv, supply, assets);
    if supply == 0 {
        if inv > 0 {
            assert(inv * amount / inv == amount) by (nonlinear_arith)
                requires
                    inv > 0,
            ;
        }
    } else {
        assert(0 <= inv * supply) by (nonlinear_arith)
            requires
                inv >= 0,
                supply > 0,
        ;
        assert(shares == inv * supply / assets);
        assert(0 <= shares && shares * assets <= inv * supply) by (nonlinear_arith)
            requires
                shares == inv * supply / assets,
                inv * supply >= 0,
                assets > 0,
        ;
        assert(shares * (assets + amount) <= amount * (supply + shares)) by (nonlinear_arith)
            requires
                shares * assets <= inv * supply,
                0 <= inv <= amount,
                supply > 0,
                shares >= 0,
        ;
        assert(0 <= shares * (assets + amount)) by (nonlinear_arith)
            requires
                shares >= 0,
                assets + amount > 0,
        ;
        assert(shares * (assets + amount) / (supply + shares) <= amount) by (nonlinear_arith)
            requires
                0 <= shares * (assets + amount) <= amount * (supply + shares),
                supply + shares > 0,
        ;
    }
}

/// A flash-loan fee is never negative and never more than a tenth of the
/// principal.
pub proof fn law_flash_fee_bounded(s: VaultState, amount: int)
    requires
        vault_ok(s),
        amount > 0,
    ensures
        0 <= flash_fee(s, amount) <= amount / 10,
{
    let f = fee_bps_of(s);
    assert(0 <= f <= MAX_FLASH_LOAN_FEE);
    assert(0 <= amount * f / 10_000 <= amount / 10) by (nonlinear_arith)
        requires
            amount > 0,
            0 <= f <= 1000,
    ;
}

/// A carbon-credit transfer conserves the credits: between two distinct
/// accounts their combined credits stay the same and the sender loses the
/// amount; a transfer to oneself changes no balance; no other account is
/// touched.
pub proof fn law_carbon_transfer_conserves(s: VaultState, from: Address, to: Address, amount: i128)
    requires
        carbon_transfer_outcome(s, from, to, amount) is Ok,
        from != to ==> carbon_of(s, to) + amount <= i128::MAX,
    ensures
        ({
            let s2 = carbon_transfer_outcome(s, from, to, amount)->Ok_0;
            &&& carbon_of(s2, from) + carbon_of(s2, to) == carbon_of(s, from) + carbon_of(s, to)
            &&& from != to ==> carbon_of(s2, from) == carbon_of(s, from) - amount
            &&& from == to ==> carbon_of(s2, from) == carbon_of(s, from)
            &&& forall|a: Address| a != from && a != to ==> #[trigger] carbon_of(s2, a) == carbon_of(s, a)
        }),
{
}

/// A VAA whose digest was consumed can never complete a transfer again,
/// whatever the core contract reports for it.
pub proof fn law_consumed_vaa_rejected(s: VaultState, digest: Seq<u8>, vaa: ParsedVaaInfo)
    requires
        s.consumed_vaas.contains(digest),
    ensures
        completion_error(s, digest, vaa) is Some,
{
}

/// Funding never reaches into the insurance fund: what stays liquid after
/// a successful funding still covers the whole fund, which is unchanged.
/// A deposit adds its premium to the fund and a withdrawal leaves it alone.
pub proof fn law_insurance_fund_kept(
    s: VaultState,
    r: RegistryState,
    project_id: u32,
    from: Address,
    amount: i128,
    min_usdc_return: i128,
    liquid: i128,
    supply: i128,
    admin: Address,
    ledger: u32,
    now: u64,
)
    ensures
        fund_outcome(s, r, project_id, amount, liquid, admin) matches Ok((s2, _)) ==> liquid
            - amount >= s.insurance_fund && s2.insurance_fund == s.insurance_fund,
        deposit_outcome(s, r, from, amount, liquid, supply, ledger, now) matches Ok((s2, _))
            ==> s2.insurance_fund == (s.insurance_fund + premium_of(amount as int)) as i128,
        withdraw_outcome(s, r, from, amount, min_usdc_return, liquid, supply, ledger, now) matches Ok(
            (s2, _),
        ) ==> s2.insurance_fund == s.insurance_fund,
{
}

/// The USDC owed to the redemptions `q`.
pub open spec fn queue_total(q: Seq<(Address, i128)>) -> int
    decreases q.len(),
{
    if q.len() == 0 {
        0
    } else {
        q[0].1 + queue_total(q.drop_first())
    }
}

/// A claim never pays out more than the liquid USDC it is given: the
/// redemptions it settles, a prefix of the queue, owe at most `budget`
/// together.
pub proof fn law_claim_within_liquid(q: Seq<(Address, i128)>, budget: int)
    requires
        budget >= 0,
    ensures
        settle_count(q, budget) <= q.len(),
        queue_total(q.take(settle_count(q, budget) as int)) <= budget,
    decreases q.len(),
{
    let n = settle_count(q, budget);
    if q.len() == 0 || q[0].1 > budget {
        assert(q.take(0) =~= Seq::<(Address, i128)>::empty());
    } else {
        let q1 = q.drop_first();
        let b1 = budget - q[0].1;
        law_claim_within_liquid(q1, b1);
        let n1 = settle_count(q1, b1);
        assert(q.take(n as int).drop_first() =~= q1.take(n1 as int));
        assert(q.take(n as int)[0] == q[0]);
    }
}

/// A listing over `[lo, hi)` holds at most `hi - lo` events.
proof fn lemma_listing_len(s: VaultState, lo: int, hi: int)
    requires
        lo <= hi,
    ensures
        compliance_listing(s, lo, hi).len() <= hi - lo,
    decreases hi - lo,
{
    if lo < hi {
        lemma_listing_len(s, lo, hi - 1);
    }
}

/// A compliance range query returns at most `MAX_COMPLIANCE_EVENTS_PER_CALL`
/// events.
pub proof fn law_compliance_query_capped(s: VaultState, from: u64, to: u64)
    ensures
        compliance_range(s, from, to).len() <= MAX_COMPLIANCE_EVENTS_PER_CALL,
{
    if from <= to {
        lemma_listing_len(s, from as int, range_last(from, to) + 1);
    }
}

/// The expected return of an investment in a project scored within 0–100
/// is never negative and never exceeds the investment.
pub proof fn law_project_return_bounded(investment: int, p: ProjectInfo)
    requires
        investment >= 0,
        p.credit_quality <= 100,
        p.green_impact <= 100,
    ensures
        0 <= project_return(investment, p) <= investment,
{
    let sc = p.credit_quality + p.green_impact;
    assert(0 <= investment * sc / 200 <= investment) by (nonlinear_arith)
        requires
            investment >= 0,
            0 <= sc <= 200,
    ;
}

/// The change in the expected returns of projects `1..=n` when only the
/// investment in project `p` changes from `before` to `after`.
spec fn return_shift(p: u32, n: int, before: int, after: int, info: ProjectInfo) -> int {
    if 1 <= p <= n {
        project_return(after, info) - project_return(before, info)
    } else {
        0
    }
}

/// Changing the investment in one registered project shifts the expected
/// returns of every prefix of ids by that project's change in return, and
/// fails them exactly when they failed before.
proof fn lemma_returns_shift(s: VaultState, s2: VaultState, r: RegistryState, p: u32, n: int)
    requires
        0 <= n <= u32::MAX,
        forall|id: u32| id != p ==> #[trigger] investment_of(s2, id) == investment_of(s, id),
        investment_of(s, p) >= 0,
        investment_of(s2, p) > 0,
        r.projects.contains_key(p),
    ensures
        ({
            let d = return_shift(
                p,
                n,
                investment_of(s, p) as int,
                investment_of(s2, p) as int,
                r.projects[p],
            );
            match returns_upto(s, r, n) {
                Ok(v) => returns_upto(s2, r, n) == Ok::<int, RegistryError>(v + d),
                Err(e) => returns_upto(s2, r, n) == Err::<int, RegistryError>(e),
            }
        }),
    decreases n,
{
    if n > 0 {
        lemma_returns_shift(s, s2, r, p, n - 1);
        let id = n as u32;
        if id != p {
            assert(investment_of(s2, id) == investment_of(s, id));
        } else {
            assert(project_return(0, r.projects[p]) == 0);
        }
    }
}

/// Expected returns add up over the funded projects: funding a project
/// raises the vault's expected returns by exactly the change in that
/// project's own return, `investment × (credit_quality + green_impact) /
/// 200`, whatever the other projects hold; a lookup that failed still
/// fails.
pub proof fn law_funding_adds_its_return(
    s: VaultState,
    r: RegistryState,
    project_id: u32,
    amount: i128,
    liquid: i128,
    admin: Address,
)
    requires
        vault_ok(s),
        ids_bounded(r),
        fund_fits(s, project_id, amount),
        fund_outcome(s, r, project_id, amount, liquid, admin) is Ok,
    ensures
        ({
            let s2 = fund_outcome(s, r, project_id, amount, liquid, admin)->Ok_0.0;
            let info = r.projects[project_id];
            let before = investment_of(s, project_id) as int;
            let gain = project_return(before + amount, info) - project_return(before, info);
            &&& investment_of(s2, project_id) == before + amount
            &&& match expected_returns(s, r) {
                Ok(v) => expected_returns(s2, r) == Ok::<int, RegistryError>(v + gain),
                Err(e) => expected_returns(s2, r) == Err::<int, RegistryError>(e),
            }
        }),
{
    let s2 = fund_outcome(s, r, project_id, amount, liquid, admin)->Ok_0.0;
    assert forall|id: u32| id != project_id implies #[trigger] investment_of(s2, id) == investment_of(
        s,
        id,
    ) by {}
    if investment_of(s, project_id) != 0 {
        assert(s.project_investment.contains_key(project_id));
    }
    assert(r.projects.contains_key(project_id));
    assert(1 <= project_id <= r.project_counter);
    lemma_returns_shift(s, s2, r, project_id, r.project_counter as int);
}

/// `x / d` reaches `k` exactly when `x` reaches `k × d`.
proof fn lemma_div_at_least(x: int, d: int, k: int)
    requires
        d > 0,
    ensures
        (x / d >= k) == (x >= k * d),
{
    vstd::arithmetic::div_mod::lemma_fundamental_div_mod(x, d);
    let q = x / d;
    let m = x % d;
    assert(0 <= m < d);
    if q >= k {
        assert(d * q >= d * k) by (nonlinear_arith)
            requires
                q >= k,
                d > 0,
        ;
    } else {
        assert(d * q + d <= d * k) by (nonlinear_arith)
            requires
                q + 1 <= k,
                d > 0,
        ;
    }
}

/// The utilisation tiers of a withdrawal that passes every other check
/// (the minimum, the deposit lock and the caller's floor): with `d` the
/// liquid plus the invested USDC and `ti` the invested part, it may take
/// any amount below 50 % utilisation, at most half the liquid USDC from
/// 50 %, a quarter from 70 % and a tenth from 90 %; within its tier's
/// limit it is accepted (paid or queued), above it refused with
/// `WithdrawalLimitExceeded`.
pub proof fn law_withdraw_tier_limits(
    s: VaultState,
    r: RegistryState,
    from: Address,
    shares: i128,
    min_usdc_return: i128,
    liquid: i128,
    supply: i128,
    ledger: u32,
    now: u64,
)
    requires
        vault_ok(s),
        liquid >= 0,
        shares >= MIN_WITHDRAW,
        !deposit_locked(s, from, ledger, now),
        nav(s, r, liquid) is Ok,
        assets_for(shares as int, supply as int, nav(s, r, liquid)->Ok_0) >= min_usdc_return,
    ensures
        ({
            let usdc = assets_for(shares as int, supply as int, nav(s, r, liquid)->Ok_0);
            let ti = s.total_investments as int;
            let d = liquid + ti;
            let out = withdraw_outcome(
                s,
                r,
                from,
                shares,
                min_usdc_return,
                liquid,
                supply,
                ledger,
                now,
            );
            let over = if d <= 0 || 2 * ti < d {
                false
            } else if 10 * ti < 7 * d {
                2 * usdc > liquid
            } else if 10 * ti < 9 * d {
                4 * usdc > liquid
            } else {
                10 * usdc > liquid
            };
            &&& over ==> out == Err::<(VaultState, i128), VaultError>(
                VaultError::WithdrawalLimitExceeded,
            )
            &&& !over ==> out is Ok
        }),
{
    let a = nav(s, r, liquid)->Ok_0;
    let usdc = assets_for(shares as int, supply as int, a);
    let ti = s.total_investments as int;
    let d = liquid + ti;
    if d > 0 {
        lemma_div_at_least(ti * 10_000, d, 5_000);
        lemma_div_at_least(ti * 10_000, d, 7_000);
        lemma_div_at_least(ti * 10_000, d, 9_000);
    }
    lemma_div_at_least(liquid * 50, 100, usdc + 1);
    lemma_div_at_least(liquid * 25, 100, usdc + 1);
    lemma_div_at_least(liquid * 10, 100, usdc + 1);
}

} // verus!
