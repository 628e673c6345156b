//! The investment vault: investors deposit USDC for HBS shares, the owner
//! funds registered projects, and shares move across chains through a
//! Wormhole bridge.
//!
//! [`InvestmentVault`] holds the vault's own ledger entries as plain values.
//! The HBS share token, the USDC token and caller authorisation stay with
//! the ledger host: the host supplies the vault's liquid USDC balance and
//! the share supply where the arithmetic needs them, and carries out the
//! mints, burns and transfers that the results describe. The project
//! registry is consulted through its own verified model.
use vstd::prelude::*;
use std::collections::BTreeMap;
use crate::common::{Address, Hash32, copy_bytes, hash_eq, lemma_push_to_set};
use crate::digest::{sha256, sha256_digest};
use crate::fees::trunc_div;
use crate::registry::{ProjectRegistry, RegistryState, state_ok};
use crate::registry_types::{ProjectInfo, RegistryError};
use crate::vault_types::{
    BridgeBurn, BridgeMint, BridgeSet, BridgeTransferCompleted, BridgeTransferInitiated,
    CarbonCreditCalculation, CarbonCreditPriceSet, CarbonCreditsCalculated,
    CarbonCreditsTransferred, CarbonOracleSet, ComplianceEventData, ComplianceEventInfo,
    ComplianceEventRecorded, Deposit, FlashLoan, FlashLoanFeeSet, MaxTransactionAmountSet,
    ProjectFunded, RedemptionQueued, RedemptionSettled, RegulatoryReport, UtilizationWarning, ReportingSnapshotData, ReportingSnapshotTaken,
    TrustedEmitterSet, VaultError, VaultEvent, Withdraw,
};
use crate::wormhole::{
    BridgeTransferPayload, ParsedVaa, PayloadInfo, decode_payload, encode_payload,
    parse_bridge_payload, serialize_bridge_payload,
};
use crate::wormhole::chain_id;

verus! {

/// Share of every deposit, in basis points, kept in the insurance fund.
pub const INSURANCE_PREMIUM_BPS: i128 = 50;

/// Flash-loan fee in basis points until the owner sets one (0.3 %).
pub const DEFAULT_FLASH_LOAN_FEE: i128 = 30;

/// Highest flash-loan fee in basis points (10 %).
pub const MAX_FLASH_LOAN_FEE: i128 = 1000;

/// Divisor turning `investment × green_impact` into carbon credits: one
/// credit per USDC (7 decimals) invested at green impact 100.
pub const CARBON_UNIT: i128 = 10_000_000_000;

/// Number of compliance events retained; older ones are pruned.
pub const MAX_COMPLIANCE_EVENTS: u64 = 1000;

/// Most compliance events returned by one range query.
pub const MAX_COMPLIANCE_EVENTS_PER_CALL: u64 = 100;

/// Number of recent compliance events in a regulatory report.
pub const REPORT_RECENT_EVENTS: u64 = 50;

/// Smallest deposit: 100 USDC (7 decimals).
pub const MIN_DEPOSIT: i128 = 100_0000000;

/// Largest single deposit: one billion USDC (7 decimals).
pub const MAX_DEPOSIT: i128 = 1_000_000_000_0000000;

/// Cap on the HBS share supply: ten billion shares (7 decimals).
pub const MAX_HBS_SUPPLY: i128 = 10_000_000_000_0000000;

/// Smallest withdrawal: 100 shares (7 decimals).
pub const MIN_WITHDRAW: i128 = 100_0000000;

/// Seconds a deposit stays locked within the ledger it was made in (one
/// day).
pub const MIN_LOCK_PERIOD: u64 = 86_400;

/// Utilisation (bps) from which a withdrawal may take at most half the
/// liquid USDC.
pub const UTIL_LOW_BPS: i128 = 5_000;

/// Utilisation (bps) from which a withdrawal may take at most a quarter of
/// the liquid USDC.
pub const UTIL_MED_BPS: i128 = 7_000;

/// Utilisation (bps) from which a withdrawal may take at most a tenth of
/// the liquid USDC.
pub const UTIL_HIGH_BPS: i128 = 9_000;

/// Utilisation (bps) from which a withdrawal is accompanied by a warning.
pub const UTIL_WARN_BPS: i128 = 7_000;

/// The abstract state of a vault.
#[verifier::ext_equal]
pub struct VaultState {
    pub usdc_token: Address,
    pub registry: Address,
    pub bridge: Option<Address>,
    pub total_investments: i128,
    pub project_investment: Map<u32, i128>,
    pub flash_loan_fee: Option<i128>,
    pub carbon_oracle: Option<Address>,
    pub carbon_credit_price: Option<i128>,
    pub carbon_balances: Map<Address, i128>,
    pub compliance_counter: u64,
    pub compliance_events: Map<u64, ComplianceEventInfo>,
    pub snapshot: Option<ReportingSnapshotData>,
    pub max_transaction_amount: Option<i128>,
    pub wormhole_core: Option<Address>,
    /// `(chain, emitter)` pairs allowed to mint through the bridge.
    pub trusted_emitters: Set<(u32, Seq<u8>)>,
    /// Digests of the VAAs already used to mint.
    pub consumed_vaas: Set<Seq<u8>>,
    pub insurance_fund: i128,
    /// Ledger sequence and time of each account's last deposit.
    pub last_deposit: Map<Address, (u32, u64)>,
    /// Redemptions owed but not yet paid, oldest first.
    pub redemption_queue: Seq<(Address, i128)>,
    /// Events emitted so far, oldest first.
    pub events: Seq<VaultEvent>,
}

/// The vault's ledger entries.
pub struct InvestmentVault {
    usdc_token: Address,
    registry: Address,
    bridge: Option<Address>,
    total_investments: i128,
    project_investment: BTreeMap<u32, i128>,
    flash_loan_fee: Option<i128>,
    carbon_oracle: Option<Address>,
    carbon_credit_price: Option<i128>,
    carbon_balances: BTreeMap<Address, i128>,
    compliance_counter: u64,
    compliance_events: BTreeMap<u64, ComplianceEventData>,
    snapshot: Option<ReportingSnapshotData>,
    max_transaction_amount: Option<i128>,
    wormhole_core: Option<Address>,
    trusted_emitters: Vec<(u32, Hash32)>,
    consumed_vaas: Vec<Hash32>,
    insurance_fund: i128,
    last_deposit: BTreeMap<Address, (u32, u64)>,
    redemption_queue: Vec<(Address, i128)>,
    events: Vec<VaultEvent>,
}

/// The trusted-emitter entries as `(chain, emitter bytes)` pairs.
pub open spec fn emitter_keys(v: Seq<(u32, Hash32)>) -> Seq<(u32, Seq<u8>)> {
    v.map_values(|e: (u32, Hash32)| (e.0, e.1@))
}

/// The consumed digests as byte strings.
pub open spec fn digest_keys(v: Seq<Hash32>) -> Seq<Seq<u8>> {
    v.map_values(|h: Hash32| h@)
}

/// The compliance events by value.
pub open spec fn compliance_views(m: Map<u64, ComplianceEventData>) -> Map<u64, ComplianceEventInfo> {
    m.map_values(|e: ComplianceEventData| e@)
}

impl View for InvestmentVault {
    type V = VaultState;

    closed spec fn view(&self) -> VaultState {
        VaultState {
            usdc_token: self.usdc_token,
            registry: self.registry,
            bridge: self.bridge,
            total_investments: self.total_investments,
            project_investment: self.project_investment@,
            flash_loan_fee: self.flash_loan_fee,
            carbon_oracle: self.carbon_oracle,
            carbon_credit_price: self.carbon_credit_price,
            carbon_balances: self.carbon_balances@,
            compliance_counter: self.compliance_counter,
            compliance_events: compliance_views(self.compliance_events@),
            snapshot: self.snapshot,
            max_transaction_amount: self.max_transaction_amount,
            wormhole_core: self.wormhole_core,
            trusted_emitters: emitter_keys(self.trusted_emitters@).to_set(),
            consumed_vaas: digest_keys(self.consumed_vaas@).to_set(),
            insurance_fund: self.insurance_fund,
            last_deposit: self.last_deposit@,
            redemption_queue: self.redemption_queue@,
            events: self.events@,
        }
    }
}

/// Exactly the last `MAX_COMPLIANCE_EVENTS` compliance events are
/// retained, each under its own sequence number.
pub open spec fn compliance_window(s: VaultState) -> bool {
    &&& forall|k: u64|
        #![trigger s.compliance_events.contains_key(k)]
        s.compliance_events.contains_key(k) <==> (1 <= k <= s.compliance_counter
            && s.compliance_counter < k + MAX_COMPLIANCE_EVENTS)
    &&& forall|k: u64|
        #![trigger s.compliance_events[k]]
        s.compliance_events.contains_key(k) ==> s.compliance_events[k].seq == k
}

/// The invariant of a vault's abstract state.
pub open spec fn vault_ok(s: VaultState) -> bool {
    &&& s.insurance_fund >= 0
    &&& s.total_investments >= 0
    &&& forall|id: u32|
        #![trigger s.project_investment[id]]
        s.project_investment.contains_key(id) ==> s.project_investment[id] > 0
    &&& forall|a: Address|
        #![trigger s.carbon_balances[a]]
        s.carbon_balances.contains_key(a) ==> s.carbon_balances[a] >= 0
    &&& compliance_window(s)
    &&& (s.flash_loan_fee matches Some(f) ==> 0 <= f <= MAX_FLASH_LOAN_FEE)
    &&& forall|i: int|
        #![trigger s.redemption_queue[i]]
        0 <= i < s.redemption_queue.len() ==> s.redemption_queue[i].1 > 0
}

/// The amount invested in a project (0 when none).
pub open spec fn investment_of(s: VaultState, project_id: u32) -> i128 {
    if s.project_investment.contains_key(project_id) {
        s.project_investment[project_id]
    } else {
        0
    }
}

/// The carbon credits held by `account` (0 when none).
pub open spec fn carbon_of(s: VaultState, account: Address) -> i128 {
    if s.carbon_balances.contains_key(account) {
        s.carbon_balances[account]
    } else {
        0
    }
}

/// The flash-loan fee in basis points in force.
pub open spec fn fee_bps_of(s: VaultState) -> i128 {
    match s.flash_loan_fee {
        Some(f) => f,
        None => DEFAULT_FLASH_LOAN_FEE,
    }
}

/// The expected return of an investment in a project:
/// `investment × (credit_quality + green_impact) / 200`.
pub open spec fn project_return(investment: int, p: ProjectInfo) -> int {
    investment * (p.credit_quality + p.green_impact) / 200
}

/// The expected returns of the funded projects with ids `1..=n`; a funded
/// project missing from the registry fails the lookup.
pub open spec fn returns_upto(s: VaultState, r: RegistryState, n: int) -> Result<int, RegistryError>
    decreases n,
{
    if n <= 0 {
        Ok(0)
    } else {
        match returns_upto(s, r, n - 1) {
            Err(e) => Err(e),
            Ok(acc) => {
                let inv = investment_of(s, n as u32);
                if inv <= 0 {
                    Ok(acc)
                } else if !r.projects.contains_key(n as u32) {
                    Err(RegistryError::ProjectNotFound)
                } else {
                    Ok(acc + project_return(inv as int, r.projects[n as u32]))
                }
            },
        }
    }
}

/// The expected returns of every funded project of the registry.
pub open spec fn expected_returns(s: VaultState, r: RegistryState) -> Result<int, RegistryError> {
    if !state_ok(r) {
        Err(RegistryError::UnsupportedStateVersion)
    } else {
        returns_upto(s, r, r.project_counter as int)
    }
}

/// Whether every product and every partial sum of the expected-returns sum
/// fits in `i128`.
pub open spec fn returns_fit(s: VaultState, r: RegistryState) -> bool {
    &&& forall|id: u32|
        #![trigger r.projects[id]]
        (1 <= id <= r.project_counter && investment_of(s, id) > 0 && r.projects.contains_key(id))
            ==> investment_of(s, id) * (r.projects[id].credit_quality + r.projects[id].green_impact)
            <= i128::MAX
    &&& forall|n: int|
        #![trigger returns_upto(s, r, n)]
        0 <= n <= r.project_counter ==> (returns_upto(s, r, n) matches Ok(v) ==> v <= i128::MAX)
}

/// The vault's net asset value: liquid USDC, the amounts invested and their
/// expected returns.
pub open spec fn nav(s: VaultState, r: RegistryState, liquid: i128) -> Result<int, RegistryError> {
    match expected_returns(s, r) {
        Ok(e) => Ok(liquid + s.total_investments + e),
        Err(e) => Err(e),
    }
}

/// Whether computing the net asset value stays within `i128`.
pub open spec fn nav_fits(s: VaultState, r: RegistryState, liquid: i128) -> bool {
    &&& returns_fit(s, r)
    &&& i128::MIN <= liquid + s.total_investments <= i128::MAX
    &&& (nav(s, r, liquid) matches Ok(v) ==> i128::MIN <= v <= i128::MAX)
}

/// Shares worth `amount` USDC: one for one while no shares exist, else
/// pro rata to the supply over the assets, rounded toward zero.
pub open spec fn shares_for(amount: int, supply: int, assets: int) -> int {
    if supply == 0 {
        amount
    } else {
        trunc_div(amount * supply, assets)
    }
}

/// USDC worth `shares` shares: none while no shares exist, else pro rata
/// to the assets over the supply, rounded toward zero.
pub open spec fn assets_for(shares: int, supply: int, assets: int) -> int {
    if supply == 0 {
        0
    } else {
        trunc_div(shares * assets, supply)
    }
}

/// Whether converting `amount` USDC to shares is defined within `i128`.
pub open spec fn to_shares_fits(amount: int, supply: int, assets: int) -> bool {
    supply == 0 || (assets > 0 && i128::MIN <= amount * supply <= i128::MAX)
}

/// Whether converting `shares` to USDC stays within `i128`.
pub open spec fn to_assets_fits(shares: int, supply: int, assets: int) -> bool {
    supply == 0 || i128::MIN <= shares * assets <= i128::MAX
}

/// The insurance premium taken from a deposit.
pub open spec fn premium_of(amount: int) -> int {
    amount * INSURANCE_PREMIUM_BPS / 10_000
}

/// The outcome of `fund_project`: a positive amount for a registered
/// project of an unpaused registry that the vault owner `admin` does not
/// own, within the liquid USDC that is not insurance reserve; the result
/// carries the project owner, who receives the amount.
pub open spec fn fund_outcome(
    s: VaultState,
    r: RegistryState,
    project_id: u32,
    amount: i128,
    liquid: i128,
    admin: Address,
) -> Result<(VaultState, Address), VaultError> {
    if amount <= 0 {
        Err(VaultError::AmountNotPositive)
    } else if !state_ok(r) {
        Err(VaultError::Registry(RegistryError::UnsupportedStateVersion))
    } else if !r.projects.contains_key(project_id) {
        Err(VaultError::Registry(RegistryError::ProjectNotFound))
    } else if r.paused {
        Err(VaultError::Registry(RegistryError::Paused))
    } else if r.projects[project_id].owner == admin {
        Err(VaultError::SelfFunding)
    } else if amount > liquid - s.insurance_fund {
        Err(VaultError::InsufficientLiquidity)
    } else {
        let owner = r.projects[project_id].owner;
        Ok(
            (
                VaultState {
                    project_investment: s.project_investment.insert(
                        project_id,
                        (investment_of(s, project_id) + amount) as i128,
                    ),
                    total_investments: (s.total_investments + amount) as i128,
                    events: s.events.push(
                        VaultEvent::ProjectFunded(
                            ProjectFunded { project_id, amount, recipient: owner },
                        ),
                    ),
                    ..s
                },
                owner,
            ),
        )
    }
}

/// Whether the bookkeeping of funding `amount` fits in `i128`.
pub open spec fn fund_fits(s: VaultState, project_id: u32, amount: i128) -> bool {
    amount > 0 ==> investment_of(s, project_id) + amount <= i128::MAX && s.total_investments
        + amount <= i128::MAX
}

/// A failing prefix of the expected-returns sum fails the whole sum.
proof fn lemma_returns_error_extends(s: VaultState, r: RegistryState, i: int, n: int)
    requires
        i <= n,
        returns_upto(s, r, i) is Err,
    ensures
        returns_upto(s, r, n) == returns_upto(s, r, i),
    decreases n - i,
{
    if i < n {
        lemma_returns_error_extends(s, r, i, n - 1);
    }
}

/// Dividing by a positive number never moves a value away from zero.
proof fn lemma_trunc_div_shrinks(a: int, b: int)
    requires
        b >= 1,
    ensures
        a >= 0 ==> 0 <= trunc_div(a, b) <= a,
        a < 0 ==> a <= trunc_div(a, b) <= 0,
{
    if a >= 0 {
        assert(0 <= a / b <= a) by (nonlinear_arith)
            requires
                a >= 0,
                b >= 1,
        ;
    } else {
        assert(0 <= (-a) / b <= -a) by (nonlinear_arith)
            requires
                -a > 0,
                b >= 1,
        ;
    }
}

/// The outcome of `deposit` at ledger `ledger` and time `now`: an amount
/// within `MIN_DEPOSIT..=MAX_DEPOSIT` pays the insurance premium, and the
/// rest buys shares at the net asset value before the deposit, as long as
/// the share supply stays within `MAX_HBS_SUPPLY`; the deposit is recorded
/// as `from`'s last, and the result carries the shares to mint.
pub open spec fn deposit_outcome(
    s: VaultState,
    r: RegistryState,
    from: Address,
    amount: i128,
    liquid: i128,
    supply: i128,
    ledger: u32,
    now: u64,
) -> Result<(VaultState, i128), VaultError> {
    if amount <= 0 {
        Err(VaultError::AmountNotPositive)
    } else if amount < MIN_DEPOSIT {
        Err(VaultError::BelowMinimumDeposit)
    } else if amount > MAX_DEPOSIT {
        Err(VaultError::AboveMaximumDeposit)
    } else {
        match nav(s, r, liquid) {
            Err(e) => Err(VaultError::Registry(e)),
            Ok(a) => {
                let premium = premium_of(amount as int);
                let shares = shares_for(amount - premium, supply as int, a);
                if supply + shares > MAX_HBS_SUPPLY {
                    Err(VaultError::SupplyCapExceeded)
                } else {
                    Ok(
                        (
                            VaultState {
                                insurance_fund: (s.insurance_fund + premium) as i128,
                                last_deposit: s.last_deposit.insert(from, (ledger, now)),
                                events: s.events.push(
                                    VaultEvent::Deposit(
                                        Deposit {
                                            from,
                                            usdc_amount: amount,
                                            shares_minted: shares as i128,
                                        },
                                    ),
                                ),
                                ..s
                            },
                            shares as i128,
                        ),
                    )
                }
            },
        }
    }
}

/// Whether the arithmetic of a deposit stays within `i128`.
pub open spec fn deposit_fits(
    s: VaultState,
    r: RegistryState,
    amount: i128,
    liquid: i128,
    supply: i128,
) -> bool {
    MIN_DEPOSIT <= amount <= MAX_DEPOSIT ==> {
        &&& amount * INSURANCE_PREMIUM_BPS <= i128::MAX
        &&& s.insurance_fund + premium_of(amount as int) <= i128::MAX
        &&& nav_fits(s, r, liquid)
        &&& (nav(s, r, liquid) matches Ok(a) ==> to_shares_fits(
            amount - premium_of(amount as int),
            supply as int,
            a,
        ))
    }
}

/// Whether `from`'s last deposit still locks a withdrawal at ledger
/// `ledger` and time `now`: it does while the ledger is still the
/// deposit's and `MIN_LOCK_PERIOD` has not passed since it.
pub open spec fn deposit_locked(s: VaultState, from: Address, ledger: u32, now: u64) -> bool {
    s.last_deposit.contains_key(from) && ledger <= s.last_deposit[from].0 && now
        < s.last_deposit[from].1 + MIN_LOCK_PERIOD
}

/// The share of the vault's USDC deployed in projects, in basis points
/// (0 while the vault holds nothing).
pub open spec fn utilization_bps(s: VaultState, liquid: int) -> int {
    if liquid + s.total_investments <= 0 {
        0
    } else {
        s.total_investments * 10_000 / (liquid + s.total_investments)
    }
}

/// The most USDC one withdrawal may take at the vault's utilisation: a
/// tenth, a quarter or half of the liquid USDC from 90 %, 70 % and 50 %
/// utilisation on; below 50 % there is no limit.
pub open spec fn withdraw_cap(s: VaultState, liquid: int) -> Option<int> {
    let u = utilization_bps(s, liquid);
    if u >= UTIL_HIGH_BPS {
        Some(liquid * 10 / 100)
    } else if u >= UTIL_MED_BPS {
        Some(liquid * 25 / 100)
    } else if u >= UTIL_LOW_BPS {
        Some(liquid * 50 / 100)
    } else {
        None
    }
}

/// The warning a withdrawal at the vault's utilisation records before its
/// own event: one from `UTIL_WARN_BPS` on, none below.
pub open spec fn utilization_warning(s: VaultState, liquid: int) -> Seq<VaultEvent> {
    let u = utilization_bps(s, liquid);
    if u >= UTIL_WARN_BPS {
        seq![VaultEvent::UtilizationWarning(UtilizationWarning { utilization_bps: u as u32 })]
    } else {
        Seq::empty()
    }
}

/// The outcome of `withdraw` at ledger `ledger` and time `now`: at least
/// `MIN_WITHDRAW` shares, not locked by `from`'s last deposit, are redeemed
/// at the net asset value; the redemption must pay at least
/// `min_usdc_return` and stay within the utilisation tier's limit. What
/// the liquid USDC covers is paid out; otherwise the redemption is queued
/// and nothing is paid now. From `UTIL_WARN_BPS` utilisation on, a warning
/// precedes the withdrawal's event. The result carries the USDC to pay out.
pub open spec fn withdraw_outcome(
    s: VaultState,
    r: RegistryState,
    from: Address,
    shares: i128,
    min_usdc_return: i128,
    liquid: i128,
    supply: i128,
    ledger: u32,
    now: u64,
) -> Result<(VaultState, i128), VaultError> {
    if shares <= 0 {
        Err(VaultError::SharesNotPositive)
    } else if shares < MIN_WITHDRAW {
        Err(VaultError::BelowMinimumWithdrawal)
    } else if deposit_locked(s, from, ledger, now) {
        Err(VaultError::DepositLocked)
    } else {
        match nav(s, r, liquid) {
            Err(e) => Err(VaultError::Registry(e)),
            Ok(a) => {
                let usdc = assets_for(shares as int, supply as int, a);
                if usdc < min_usdc_return {
                    Err(VaultError::SlippageExceeded)
                } else if withdraw_cap(s, liquid as int) matches Some(cap) && usdc > cap {
                    Err(VaultError::WithdrawalLimitExceeded)
                } else if usdc > liquid {
                    Ok(
                        (
                            VaultState {
                                redemption_queue: s.redemption_queue.push((from, usdc as i128)),
                                events: (s.events + utilization_warning(s, liquid as int)).push(
                                    VaultEvent::RedemptionQueued(
                                        RedemptionQueued {
                                            from,
                                            shares_burned: shares,
                                            usdc_owed: usdc as i128,
                                        },
                                    ),
                                ),
                                ..s
                            },
                            0,
                        ),
                    )
                } else {
                    Ok(
                        (
                            VaultState {
                                events: (s.events + utilization_warning(s, liquid as int)).push(
                                    VaultEvent::Withdraw(
                                        Withdraw {
                                            from,
                                            shares_burned: shares,
                                            usdc_returned: usdc as i128,
                                        },
                                    ),
                                ),
                                ..s
                            },
                            usdc as i128,
                        ),
                    )
                }
            },
        }
    }
}

/// How many queued redemptions, oldest first, `budget` USDC pays in full:
/// settlement stops at the first one the rest of the budget cannot cover.
pub open spec fn settle_count(q: Seq<(Address, i128)>, budget: int) -> nat
    decreases q.len(),
{
    if q.len() == 0 || q[0].1 > budget {
        0
    } else {
        1 + settle_count(q.drop_first(), budget - q[0].1)
    }
}

/// The events recording the payment of the redemptions `paid`.
pub open spec fn settled_events(paid: Seq<(Address, i128)>) -> Seq<VaultEvent> {
    paid.map_values(
        |e: (Address, i128)| VaultEvent::RedemptionSettled(RedemptionSettled { to: e.0, amount: e.1 }),
    )
}

/// Whether the arithmetic of a withdrawal stays within `i128`.
pub open spec fn withdraw_fits(
    s: VaultState,
    r: RegistryState,
    shares: i128,
    liquid: i128,
    supply: i128,
) -> bool {
    shares >= MIN_WITHDRAW ==> {
        &&& nav_fits(s, r, liquid)
        &&& (nav(s, r, liquid) matches Ok(a) ==> to_assets_fits(shares as int, supply as int, a))
        &&& s.total_investments * 10_000 <= i128::MAX
        &&& liquid * 50 <= i128::MAX
    }
}

/// The flash-loan fee on `amount`.
pub open spec fn flash_fee(s: VaultState, amount: int) -> int {
    amount * fee_bps_of(s) / 10_000
}

/// Whether a flash loan of `amount` plus its fee fits in `i128`.
pub open spec fn flash_fits(s: VaultState, amount: i128) -> bool {
    amount > 0 ==> amount * fee_bps_of(s) <= i128::MAX && amount + flash_fee(s, amount as int)
        <= i128::MAX
}

/// The carbon credits `amount` invested at green impact `green_impact`
/// earns.
pub open spec fn credits_for(amount: int, green_impact: int) -> int {
    amount * green_impact / CARBON_UNIT as int
}

/// The outcome of `calculate_carbon_credits`: the calculation, recorded as
/// an event.
pub open spec fn carbon_outcome(s: VaultState, r: RegistryState, project_id: u32, amount: i128) -> Result<
    (VaultState, CarbonCreditCalculation),
    VaultError,
> {
    if amount <= 0 {
        Err(VaultError::AmountNotPositive)
    } else if !state_ok(r) {
        Err(VaultError::Registry(RegistryError::UnsupportedStateVersion))
    } else if !r.projects.contains_key(project_id) {
        Err(VaultError::Registry(RegistryError::ProjectNotFound))
    } else {
        let credits = credits_for(amount as int, r.projects[project_id].green_impact as int) as i128;
        Ok(
            (
                VaultState {
                    events: s.events.push(
                        VaultEvent::CarbonCreditsCalculated(
                            CarbonCreditsCalculated {
                                project_id,
                                amount_invested: amount,
                                credits,
                            },
                        ),
                    ),
                    ..s
                },
                CarbonCreditCalculation { project_id, amount_invested: amount, credits },
            ),
        )
    }
}

/// Whether the carbon-credit product fits in `i128`.
pub open spec fn carbon_fits(r: RegistryState, project_id: u32, amount: i128) -> bool {
    (amount > 0 && r.projects.contains_key(project_id)) ==> amount
        * r.projects[project_id].green_impact <= i128::MAX
}

/// The outcome of `issue_carbon_credits`: the credits of the calculation
/// are added to `to`'s balance; none to issue is an error.
pub open spec fn issue_outcome(
    s: VaultState,
    r: RegistryState,
    to: Address,
    project_id: u32,
    amount: i128,
) -> Result<(VaultState, i128), VaultError> {
    match carbon_outcome(s, r, project_id, amount) {
        Err(e) => Err(e),
        Ok((s2, calc)) => if calc.credits <= 0 {
            Err(VaultError::NoCarbonCredits)
        } else {
            Ok(
                (
                    VaultState {
                        carbon_balances: s2.carbon_balances.insert(
                            to,
                            (carbon_of(s2, to) + calc.credits) as i128,
                        ),
                        ..s2
                    },
                    calc.credits,
                ),
            )
        },
    }
}

/// Whether issuing credits keeps `to`'s balance within `i128`.
pub open spec fn issue_fits(
    s: VaultState,
    r: RegistryState,
    to: Address,
    project_id: u32,
    amount: i128,
) -> bool {
    &&& carbon_fits(r, project_id, amount)
    &&& (carbon_outcome(s, r, project_id, amount) matches Ok((s2, calc)) ==> carbon_of(s2, to)
        + calc.credits <= i128::MAX)
}

/// The outcome of `transfer_carbon_credits`: the sender must hold the
/// amount, which moves to the receiver; a transfer to oneself leaves the
/// balances as they are.
pub open spec fn carbon_transfer_outcome(s: VaultState, from: Address, to: Address, amount: i128) -> Result<
    VaultState,
    VaultError,
> {
    if amount <= 0 {
        Err(VaultError::AmountNotPositive)
    } else if carbon_of(s, from) < amount {
        Err(VaultError::InsufficientCarbonCredits)
    } else {
        Ok(
            VaultState {
                carbon_balances: if from == to {
                    s.carbon_balances
                } else {
                    s.carbon_balances.insert(from, (carbon_of(s, from) - amount) as i128).insert(
                        to,
                        (carbon_of(s, to) + amount) as i128,
                    )
                },
                events: s.events.push(
                    VaultEvent::CarbonCreditsTransferred(
                        CarbonCreditsTransferred { from, to, amount },
                    ),
                ),
                ..s
            },
        )
    }
}

/// The compliance events with sequence numbers in `[lo, hi)` that are
/// retained, in ascending order.
pub open spec fn compliance_listing(s: VaultState, lo: int, hi: int) -> Seq<ComplianceEventInfo>
    decreases hi - lo,
{
    if hi <= lo {
        Seq::empty()
    } else if 0 <= hi - 1 <= u64::MAX && s.compliance_events.contains_key((hi - 1) as u64) {
        compliance_listing(s, lo, hi - 1).push(s.compliance_events[(hi - 1) as u64])
    } else {
        compliance_listing(s, lo, hi - 1)
    }
}

/// The last sequence number a range query from `from` to `to` visits: at
/// most `MAX_COMPLIANCE_EVENTS_PER_CALL` numbers are visited.
pub open spec fn range_last(from: u64, to: u64) -> int {
    if to - from >= MAX_COMPLIANCE_EVENTS_PER_CALL {
        from + MAX_COMPLIANCE_EVENTS_PER_CALL - 1
    } else {
        to as int
    }
}

/// The retained compliance events a range query from `from` to `to`
/// returns.
pub open spec fn compliance_range(s: VaultState, from: u64, to: u64) -> Seq<ComplianceEventInfo> {
    if from > to {
        Seq::empty()
    } else {
        compliance_listing(s, from as int, range_last(from, to) + 1)
    }
}

/// Compliance events by value.
pub open spec fn event_infos(v: Seq<ComplianceEventData>) -> Seq<ComplianceEventInfo> {
    v.map_values(|e: ComplianceEventData| e@)
}

/// The compliance events after recording event number `seq`: the oldest
/// beyond the retention window is dropped.
pub open spec fn recorded_events(
    m: Map<u64, ComplianceEventInfo>,
    seq: u64,
    info: ComplianceEventInfo,
) -> Map<u64, ComplianceEventInfo> {
    if seq > MAX_COMPLIANCE_EVENTS {
        m.insert(seq, info).remove((seq - MAX_COMPLIANCE_EVENTS) as u64)
    } else {
        m.insert(seq, info)
    }
}

/// The first sequence number of the recent events in a regulatory report.
pub open spec fn report_start(counter: u64) -> u64 {
    if counter > REPORT_RECENT_EVENTS {
        (counter - REPORT_RECENT_EVENTS + 1) as u64
    } else {
        1
    }
}

/// Why completing an inbound transfer with VAA digest `digest` fails, if it
/// does.
pub open spec fn completion_error(
    s: VaultState,
    digest: Seq<u8>,
    vaa: crate::wormhole::ParsedVaaInfo,
) -> Option<VaultError> {
    if s.wormhole_core is None {
        Some(VaultError::WormholeCoreNotSet)
    } else {
        match decode_payload(vaa.payload) {
            None => Some(VaultError::MalformedPayload),
            Some(t) => if !s.trusted_emitters.contains((t.source_chain, vaa.emitter_address)) {
                Some(VaultError::EmitterNotTrusted)
            } else if s.consumed_vaas.contains(digest) {
                Some(VaultError::VaaAlreadyConsumed)
            } else {
                None
            },
        }
    }
}

/// The outbound transfer message for `amount` shares to `recipient` on
/// `target_chain`.
pub open spec fn outbound_payload(
    token_address: Hash32,
    recipient: Hash32,
    amount: i128,
    target_chain: u32,
    nonce: u64,
) -> PayloadInfo {
    PayloadInfo {
        token_address: token_address@,
        recipient: recipient@,
        amount,
        source_chain: chain_id::STELLAR,
        target_chain,
        nonce,
    }
}

impl InvestmentVault {
    /// Well-formedness: the state invariant, and no trusted emitter is
    /// listed twice.
    pub closed spec fn wf(&self) -> bool {
        &&& vault_ok(self@)
        &&& emitter_keys(self.trusted_emitters@).no_duplicates()
    }

    /// A vault holding `usdc_token` deposits and consulting `registry`. The
    /// owner is recorded by the ownership module and the share token's
    /// metadata by the token module.
    pub fn new(usdc_token: Address, registry: Address) -> (r: InvestmentVault)
        ensures
            r.wf(),
            r@ == (VaultState {
                usdc_token,
                registry,
                bridge: None,
                total_investments: 0,
                project_investment: Map::empty(),
                flash_loan_fee: None,
                carbon_oracle: None,
                carbon_credit_price: None,
                carbon_balances: Map::empty(),
                compliance_counter: 0,
                compliance_events: Map::empty(),
                snapshot: None,
                max_transaction_amount: None,
                wormhole_core: None,
                trusted_emitters: Set::empty(),
                consumed_vaas: Set::empty(),
                insurance_fund: 0,
                last_deposit: Map::empty(),
                redemption_queue: Seq::empty(),
                events: Seq::empty(),
            }),
    {
        let r = InvestmentVault {
            usdc_token,
            registry,
            bridge: None,
            total_investments: 0,
            project_investment: BTreeMap::new(),
            flash_loan_fee: None,
            carbon_oracle: None,
            carbon_credit_price: None,
            carbon_balances: BTreeMap::new(),
            compliance_counter: 0,
            compliance_events: BTreeMap::new(),
            snapshot: None,
            max_transaction_amount: None,
            wormhole_core: None,
            trusted_emitters: Vec::new(),
            consumed_vaas: Vec::new(),
            insurance_fund: 0,
            last_deposit: BTreeMap::new(),
            redemption_queue: Vec::new(),
            events: Vec::new(),
        };
        assert(compliance_views(r.compliance_events@) =~= Map::empty());
        assert(emitter_keys(r.trusted_emitters@).to_set() =~= Set::empty());
        assert(digest_keys(r.consumed_vaas@).to_set() =~= Set::empty());
        r
    }

    /// Appends an event to the log.
    fn emit(&mut self, event: VaultEvent)
        requires
            old(self).wf(),
        ensures
            final(self).wf(),
            final(self)@ == (VaultState { events: old(self)@.events.push(event), ..old(self)@ }),
    {
        self.events.push(event);
    }

    /// The events emitted so far, oldest first.
    pub fn events(&self) -> (r: &Vec<VaultEvent>)
        ensures
            r@ == self@.events,
    {
        &self.events
    }

    /// Set the bridge contract allowed to mint shares; setting the current
    /// one again changes nothing. Owner-only.
    pub fn set_bridge(&mut self, bridge: Address)
        requires
            old(self).wf(),
        ensures
            final(self).wf(),
            old(self)@.bridge == Some(bridge) ==> final(self)@ == old(self)@,
            old(self)@.bridge != Some(bridge) ==> final(self)@ == (VaultState {
                bridge: Some(bridge),
                events: old(self)@.events.push(VaultEvent::BridgeSet(BridgeSet { bridge })),
                ..old(self)@
            }),
    {
        if let Some(current) = self.bridge {
            if current == bridge {
                return;
            }
        }
        self.bridge = Some(bridge);
        self.emit(VaultEvent::BridgeSet(BridgeSet { bridge }));
    }

    /// Record a bridge mint of `amount` shares to `to` at ledger `ledger`
    /// and time `now`; like a deposit, the mint locks `to`'s withdrawals
    /// (see [`deposit_locked`]). Returns the bridge contract, whose
    /// authorisation the host requires before minting.
    pub fn bridge_mint(&mut self, to: Address, amount: i128, ledger: u32, now: u64) -> (r: Result<
        Address,
        VaultError,
    >)
        requires
            old(self).wf(),
        ensures
            final(self).wf(),
            match old(self)@.bridge {
                None => r == Err::<Address, VaultError>(VaultError::BridgeNotSet) && final(self)@
                    == old(self)@,
                Some(b) => if amount <= 0 {
                    r == Err::<Address, VaultError>(VaultError::AmountNotPositive) && final(self)@
                        == old(self)@
                } else {
                    r == Ok::<Address, VaultError>(b) && final(self)@ == (VaultState {
                        last_deposit: old(self)@.last_deposit.insert(to, (ledger, now)),
                        events: old(self)@.events.push(
                            VaultEvent::BridgeMint(BridgeMint { to, amount }),
                        ),
                        ..old(self)@
                    })
                },
            },
    {
        let bridge = match self.bridge {
            Some(b) => b,
            None => {
                return Err(VaultError::BridgeNotSet);
            },
        };
        if amount <= 0 {
            return Err(VaultError::AmountNotPositive);
        }
        self.last_deposit.insert(to, (ledger, now));
        self.emit(VaultEvent::BridgeMint(BridgeMint { to, amount }));
        proof {
            assert(self@ =~= (VaultState {
                last_deposit: old(self)@.last_deposit.insert(to, (ledger, now)),
                events: old(self)@.events.push(VaultEvent::BridgeMint(BridgeMint { to, amount })),
                ..old(self)@
            }));
        }
        Ok(bridge)
    }

    /// Record a burn of `amount` shares held by `from` for outbound
    /// bridging; the host requires `from`'s authorisation and burns.
    pub fn bridge_burn(&mut self, from: Address, amount: i128) -> (r: Result<(), VaultError>)
        requires
            old(self).wf(),
        ensures
            final(self).wf(),
            if amount <= 0 {
                r == Err::<(), VaultError>(VaultError::AmountNotPositive) && final(self)@ == old(
                    self,
                )@
            } else {
                r is Ok && final(self)@ == (VaultState {
                    events: old(self)@.events.push(
                        VaultEvent::BridgeBurn(BridgeBurn { from, amount }),
                    ),
                    ..old(self)@
                })
            },
    {
        if amount <= 0 {
            return Err(VaultError::AmountNotPositive);
        }
        self.emit(VaultEvent::BridgeBurn(BridgeBurn { from, amount }));
        Ok(())
    }

    /// The amount invested in a project.
    fn read_investment(&self, project_id: u32) -> (r: i128)
        ensures
            r == investment_of(self@, project_id),
    {
        match self.project_investment.get(&project_id) {
            Some(v) => *v,
            None => 0,
        }
    }

    /// The amount the vault has invested in a project (0 when none).
    pub fn get_project_investment(&self, project_id: u32) -> (r: i128)
        ensures
            r == investment_of(self@, project_id),
    {
        self.read_investment(project_id)
    }

    /// The total amount invested across projects.
    pub fn total_investments(&self) -> (r: i128)
        ensures
            r == self@.total_investments,
    {
        self.total_investments
    }

    /// The insurance fund: the premiums taken from deposits.
    pub fn insurance_fund_balance(&self) -> (r: i128)
        ensures
            r == self@.insurance_fund,
    {
        self.insurance_fund
    }

    /// Send `amount` of the vault's liquid USDC to a registered project.
    /// The insurance fund is never deployed: the amount must fit in the
    /// liquid USDC above it. Nothing is funded while the registry is
    /// paused, nor a project that the vault owner `admin` owns. Returns the
    /// project owner, to whom the host transfers the amount. Owner-only;
    /// the host supplies the vault's liquid USDC balance and its owner.
    pub fn fund_project(
        &mut self,
        project_id: u32,
        amount: i128,
        registry: &ProjectRegistry,
        liquid: i128,
        admin: Address,
    ) -> (r: Result<Address, VaultError>)
        requires
            old(self).wf(),
            liquid >= 0,
            fund_fits(old(self)@, project_id, amount),
        ensures
            final(self).wf(),
            match fund_outcome(old(self)@, registry@, project_id, amount, liquid, admin) {
                Ok((s2, owner)) => r == Ok::<Address, VaultError>(owner) && final(self)@ == s2,
                Err(e) => r == Err::<Address, VaultError>(e) && final(self)@ == old(self)@,
            },
    {
        if amount <= 0 {
            return Err(VaultError::AmountNotPositive);
        }
        let owner = match registry.get_project(project_id) {
            Ok(p) => p.owner,
            Err(e) => {
                return Err(VaultError::Registry(e));
            },
        };
        if registry.is_paused() {
            return Err(VaultError::Registry(RegistryError::Paused));
        }
        if owner == admin {
            return Err(VaultError::SelfFunding);
        }
        let deployable = liquid - self.insurance_fund;
        if amount > deployable {
            return Err(VaultError::InsufficientLiquidity);
        }
        let prev = self.read_investment(project_id);
        self.project_investment.insert(project_id, prev + amount);
        self.total_investments = self.total_investments + amount;
        self.emit(VaultEvent::ProjectFunded(ProjectFunded { project_id, amount, recipient: owner }));
        proof {
            let expected = fund_outcome(old(self)@, registry@, project_id, amount, liquid, admin);
            assert(self@ =~= expected->Ok_0.0);
        }
        Ok(owner)
    }

    /// The expected returns of the funded projects: for each, its
    /// investment times the mean of its two scores, over 100.
    pub fn get_expected_returns(&self, registry: &ProjectRegistry) -> (r: Result<i128, VaultError>)
        requires
            self.wf(),
            returns_fit(self@, registry@),
        ensures
            match expected_returns(self@, registry@) {
                Ok(v) => r == Ok::<i128, VaultError>(v as i128) && 0 <= v <= i128::MAX,
                Err(e) => r == Err::<i128, VaultError>(VaultError::Registry(e)),
            },
    {
        let total = match registry.total_projects() {
            Ok(t) => t,
            Err(e) => {
                return Err(VaultError::Registry(e));
            },
        };
        let mut expected: i128 = 0;
        let mut i: u64 = 1;
        while i <= total as u64
            invariant
                1 <= i <= total as u64 + 1,
                total == registry@.project_counter,
                state_ok(registry@),
                returns_upto(self@, registry@, i - 1) == Ok::<int, RegistryError>(expected as int),
                returns_fit(self@, registry@),
                expected >= 0,
            decreases total as u64 + 1 - i,
        {
            let id = i as u32;
            let inv = self.read_investment(id);
            if inv > 0 {
                let p = match registry.get_project(id) {
                    Ok(p) => p,
                    Err(e) => {
                        proof {
                            lemma_returns_error_extends(self@, registry@, i as int, total as int);
                        }
                        return Err(VaultError::Registry(e));
                    },
                };
                proof {
                    assert(registry@.projects[id].credit_quality == p.credit_quality);
                    assert(inv * (p.credit_quality + p.green_impact) <= i128::MAX);
                    assert(0 <= inv * (p.credit_quality + p.green_impact)) by (nonlinear_arith)
                        requires
                            inv > 0,
                            p.credit_quality + p.green_impact >= 0,
                    ;
                    assert(returns_upto(self@, registry@, i as int) matches Ok(v) && v <= i128::MAX);
                }
                let term = inv * (p.credit_quality as i128 + p.green_impact as i128) / 200;
                assert(term >= 0);
                expected = expected + term;
            }
            i = i + 1;
        }
        Ok(expected)
    }

    /// Deposit `usdc_amount` USDC from `from` at ledger `ledger` and time
    /// `now`: the amount must lie within `MIN_DEPOSIT..=MAX_DEPOSIT`; the
    /// insurance premium (0.5 %) goes to the insurance fund and the rest
    /// buys shares at the net asset value before the deposit, within the
    /// `MAX_HBS_SUPPLY` cap on the share supply. The deposit locks `from`'s
    /// withdrawals for the rest of the ledger (see [`deposit_locked`]).
    /// Returns the shares the host mints to `from` once it has moved the
    /// USDC into the vault; the host requires `from`'s authorisation and
    /// supplies the vault's liquid USDC, the share supply and the ledger.
    pub fn deposit(
        &mut self,
        from: Address,
        usdc_amount: i128,
        registry: &ProjectRegistry,
        liquid: i128,
        total_shares: i128,
        ledger: u32,
        now: u64,
    ) -> (r: Result<i128, VaultError>)
        requires
            old(self).wf(),
            liquid >= 0,
            total_shares >= 0,
            deposit_fits(old(self)@, registry@, usdc_amount, liquid, total_shares),
        ensures
            final(self).wf(),
            match deposit_outcome(
                old(self)@,
                registry@,
                from,
                usdc_amount,
                liquid,
                total_shares,
                ledger,
                now,
            ) {
                Ok((s2, shares)) => r == Ok::<i128, VaultError>(shares) && final(self)@ == s2,
                Err(e) => r == Err::<i128, VaultError>(e) && final(self)@ == old(self)@,
            },
    {
        if usdc_amount <= 0 {
            return Err(VaultError::AmountNotPositive);
        }
        if usdc_amount < MIN_DEPOSIT {
            return Err(VaultError::BelowMinimumDeposit);
        }
        if usdc_amount > MAX_DEPOSIT {
            return Err(VaultError::AboveMaximumDeposit);
        }
        let premium = usdc_amount * INSURANCE_PREMIUM_BPS / 10_000;
        let investable = usdc_amount - premium;
        let shares = self.convert_to_shares(investable, registry, liquid, total_shares)?;
        if shares > MAX_HBS_SUPPLY - total_shares {
            return Err(VaultError::SupplyCapExceeded);
        }
        self.insurance_fund = self.insurance_fund + premium;
        self.last_deposit.insert(from, (ledger, now));
        self.emit(VaultEvent::Deposit(Deposit { from, usdc_amount, shares_minted: shares }));
        proof {
            let expected = deposit_outcome(
                old(self)@,
                registry@,
                from,
                usdc_amount,
                liquid,
                total_shares,
                ledger,
                now,
            );
            assert(self@ =~= expected->Ok_0.0);
        }
        Ok(shares)
    }

    /// Whether `from`'s last deposit still locks its withdrawals.
    fn is_locked(&self, from: Address, ledger: u32, now: u64) -> (r: bool)
        ensures
            r == deposit_locked(self@, from, ledger, now),
    {
        match self.last_deposit.get(&from) {
            None => false,
            Some(last) => {
                let (last_ledger, last_time) = *last;
                ledger <= last_ledger && (now < last_time || now - last_time < MIN_LOCK_PERIOD)
            },
        }
    }

    /// The share of the vault's USDC deployed in projects, in basis points.
    fn utilization(&self, liquid: i128) -> (r: i128)
        requires
            self.wf(),
            liquid >= 0,
            liquid + self@.total_investments <= i128::MAX,
            self@.total_investments * 10_000 <= i128::MAX,
        ensures
            r == utilization_bps(self@, liquid as int),
            0 <= r <= 10_000,
    {
        let total = liquid + self.total_investments;
        if total <= 0 {
            0
        } else {
            let ti = self.total_investments;
            assert(0 <= (ti as int) * 10_000 / (total as int) <= 10_000) by (nonlinear_arith)
                requires
                    0 <= ti <= total,
                    total > 0,
            ;
            ti * 10_000 / total
        }
    }

    /// The most USDC one withdrawal may take at utilisation `util`, if the
    /// tier limits it.
    fn withdraw_limit(&self, liquid: i128, util: i128) -> (r: Option<i128>)
        requires
            liquid >= 0,
            liquid * 50 <= i128::MAX,
            util == utilization_bps(self@, liquid as int),
        ensures
            match withdraw_cap(self@, liquid as int) {
                Some(c) => r == Some(c as i128),
                None => r is None,
            },
    {
        if util >= UTIL_HIGH_BPS {
            Some(liquid * 10 / 100)
        } else if util >= UTIL_MED_BPS {
            Some(liquid * 25 / 100)
        } else if util >= UTIL_LOW_BPS {
            Some(liquid * 50 / 100)
        } else {
            None
        }
    }

    /// Record the utilisation warning a withdrawal at utilisation `util`
    /// calls for.
    fn warn_utilization(&mut self, liquid: i128, util: i128)
        requires
            old(self).wf(),
            util == utilization_bps(old(self)@, liquid as int),
            0 <= util <= 10_000,
        ensures
            final(self).wf(),
            final(self)@ == (VaultState {
                events: old(self)@.events + utilization_warning(old(self)@, liquid as int),
                ..old(self)@
            }),
    {
        if util >= UTIL_WARN_BPS {
            self.emit(
                VaultEvent::UtilizationWarning(UtilizationWarning { utilization_bps: util as u32 }),
            );
            proof {
                assert(old(self)@.events + utilization_warning(old(self)@, liquid as int)
                    =~= old(self)@.events.push(
                    VaultEvent::UtilizationWarning(UtilizationWarning { utilization_bps: util as u32 }),
                ));
            }
        } else {
            proof {
                assert(old(self)@.events + utilization_warning(old(self)@, liquid as int)
                    =~= old(self)@.events);
            }
        }
    }

    /// Redeem `shares_amount` shares of `from` at the net asset value, at
    /// ledger `ledger` and time `now`. At least `MIN_WITHDRAW` shares are
    /// redeemed, not while `from`'s last deposit locks them, for no less
    /// than `min_usdc_return` USDC and within the limit of the vault's
    /// utilisation tier. Returns the USDC the host pays `from` after burning
    /// the shares (the burn requires `from`'s authorisation); when the
    /// liquid USDC does not cover the redemption it is queued instead, to
    /// be paid by [`InvestmentVault::claim`], and 0 is returned. The host
    /// supplies the vault's liquid USDC, the share supply and the ledger.
    pub fn withdraw(
        &mut self,
        from: Address,
        shares_amount: i128,
        min_usdc_return: i128,
        registry: &ProjectRegistry,
        liquid: i128,
        total_shares: i128,
        ledger: u32,
        now: u64,
    ) -> (r: Result<i128, VaultError>)
        requires
            old(self).wf(),
            liquid >= 0,
            total_shares >= 0,
            withdraw_fits(old(self)@, registry@, shares_amount, liquid, total_shares),
        ensures
            final(self).wf(),
            match withdraw_outcome(
                old(self)@,
                registry@,
                from,
                shares_amount,
                min_usdc_return,
                liquid,
                total_shares,
                ledger,
                now,
            ) {
                Ok((s2, usdc)) => r == Ok::<i128, VaultError>(usdc) && final(self)@ == s2,
                Err(e) => r == Err::<i128, VaultError>(e) && final(self)@ == old(self)@,
            },
    {
        if shares_amount <= 0 {
            return Err(VaultError::SharesNotPositive);
        }
        if shares_amount < MIN_WITHDRAW {
            return Err(VaultError::BelowMinimumWithdrawal);
        }
        if self.is_locked(from, ledger, now) {
            return Err(VaultError::DepositLocked);
        }
        let usdc_returned = self.convert_to_assets(shares_amount, registry, liquid, total_shares)?;
        if usdc_returned < min_usdc_return {
            return Err(VaultError::SlippageExceeded);
        }
        let util = self.utilization(liquid);
        match self.withdraw_limit(liquid, util) {
            Some(cap) => {
                if usdc_returned > cap {
                    return Err(VaultError::WithdrawalLimitExceeded);
                }
            },
            None => {},
        }
        self.warn_utilization(liquid, util);
        if usdc_returned > liquid {
            self.redemption_queue.push((from, usdc_returned));
            self.emit(
                VaultEvent::RedemptionQueued(
                    RedemptionQueued { from, shares_burned: shares_amount, usdc_owed: usdc_returned },
                ),
            );
            proof {
                let expected = withdraw_outcome(
                    old(self)@,
                    registry@,
                    from,
                    shares_amount,
                    min_usdc_return,
                    liquid,
                    total_shares,
                    ledger,
                    now,
                );
                assert(self@ =~= expected->Ok_0.0);
            }
            return Ok(0);
        }
        self.emit(
            VaultEvent::Withdraw(Withdraw { from, shares_burned: shares_amount, usdc_returned }),
        );
        proof {
            let expected = withdraw_outcome(
                old(self)@,
                registry@,
                from,
                shares_amount,
                min_usdc_return,
                liquid,
                total_shares,
                ledger,
                now,
            );
            assert(self@ =~= expected->Ok_0.0);
        }
        Ok(usdc_returned)
    }

    /// Pay queued redemptions, oldest first, out of the vault's `liquid`
    /// USDC (supplied by the host) for as long as it covers the next one in
    /// full. Returns the redemptions paid, each as its account and amount,
    /// which the host transfers; they leave the queue.
    pub fn claim(&mut self, liquid: i128) -> (r: Vec<(Address, i128)>)
        requires
            old(self).wf(),
            liquid >= 0,
        ensures
            final(self).wf(),
            ({
                let q = old(self)@.redemption_queue;
                let n = settle_count(q, liquid as int);
                &&& n <= q.len()
                &&& r@ == q.take(n as int)
                &&& final(self)@ == (VaultState {
                    redemption_queue: q.skip(n as int),
                    events: old(self)@.events + settled_events(q.take(n as int)),
                    ..old(self)@
                })
            }),
    {
        let ghost q = self.redemption_queue@;
        let ghost s0 = self@;
        let n = self.redemption_queue.len();
        let mut paid: Vec<(Address, i128)> = Vec::new();
        let mut budget: i128 = liquid;
        let mut i: usize = 0;
        let mut stop = false;
        assert(q.skip(0) =~= q);
        assert(q.take(0) =~= Seq::<(Address, i128)>::empty());
        assert(settled_events(Seq::<(Address, i128)>::empty()) =~= Seq::<VaultEvent>::empty());
        assert(s0.events + Seq::<VaultEvent>::empty() =~= s0.events);
        while i < n && !stop
            invariant
                n == q.len(),
                q == self.redemption_queue@,
                self.wf(),
                self@ == (VaultState { events: self@.events, ..s0 }),
                s0 == old(self)@,
                s0.redemption_queue == q,
                i <= n,
                0 <= budget <= liquid,
                settle_count(q, liquid as int) == i + settle_count(q.skip(i as int), budget as int),
                stop ==> settle_count(q.skip(i as int), budget as int) == 0,
                paid@ == q.take(i as int),
                self@.events == s0.events + settled_events(q.take(i as int)),
            decreases n - i + (if stop { 0int } else { 1int }),
        {
            let e = self.redemption_queue[i];
            proof {
                assert(q.skip(i as int)[0] == q[i as int]);
                assert(q.skip(i as int).drop_first() =~= q.skip(i as int + 1));
                assert(self@.redemption_queue[i as int] == e);
                assert(e.1 > 0);
            }
            if e.1 > budget {
                stop = true;
            } else {
                budget = budget - e.1;
                paid.push(e);
                self.emit(VaultEvent::RedemptionSettled(RedemptionSettled { to: e.0, amount: e.1 }));
                i = i + 1;
                proof {
                    assert(q.take(i as int) =~= q.take(i - 1).push(e));
                    assert(settled_events(q.take(i as int)) =~= settled_events(q.take(i - 1)).push(
                        VaultEvent::RedemptionSettled(RedemptionSettled { to: e.0, amount: e.1 }),
                    ));
                    assert(self@.events =~= s0.events + settled_events(q.take(i as int)));
                }
            }
        }
        proof {
            if !stop {
                assert(q.skip(i as int).len() == 0);
            }
        }
        let rest = self.redemption_queue.split_off(i);
        self.redemption_queue = rest;
        proof {
            assert(self.redemption_queue@ =~= q.skip(i as int));
            assert(self@ =~= (VaultState {
                redemption_queue: q.skip(i as int),
                events: s0.events + settled_events(q.take(i as int)),
                ..s0
            }));
        }
        paid
    }

    /// The flash-loan fee in basis points (0.3 % until the owner sets one).
    pub fn flash_loan_fee(&self) -> (r: i128)
        requires
            self.wf(),
        ensures
            r == fee_bps_of(self@),
            0 <= r <= MAX_FLASH_LOAN_FEE,
    {
        match self.flash_loan_fee {
            Some(f) => f,
            None => DEFAULT_FLASH_LOAN_FEE,
        }
    }

    /// Set the flash-loan fee, 0–1000 bps. Owner-only.
    pub fn set_flash_loan_fee(&mut self, fee_bps: i128) -> (r: Result<(), VaultError>)
        requires
            old(self).wf(),
        ensures
            final(self).wf(),
            if fee_bps < 0 || fee_bps > MAX_FLASH_LOAN_FEE {
                r == Err::<(), VaultError>(VaultError::FeeOutOfRange) && final(self)@ == old(self)@
            } else {
                r is Ok && final(self)@ == (VaultState {
                    flash_loan_fee: Some(fee_bps),
                    events: old(self)@.events.push(
                        VaultEvent::FlashLoanFeeSet(FlashLoanFeeSet { fee_bps }),
                    ),
                    ..old(self)@
                })
            },
    {
        if fee_bps < 0 || fee_bps > MAX_FLASH_LOAN_FEE {
            return Err(VaultError::FeeOutOfRange);
        }
        self.flash_loan_fee = Some(fee_bps);
        self.emit(VaultEvent::FlashLoanFeeSet(FlashLoanFeeSet { fee_bps }));
        Ok(())
    }

    /// The fee a flash loan of `amount` shares costs. The host mints
    /// `amount` plus this fee to the borrower before its callback runs.
    pub fn quote_flash_loan(&self, amount: i128) -> (r: Result<i128, VaultError>)
        requires
            self.wf(),
            flash_fits(self@, amount),
        ensures
            if amount <= 0 {
                r == Err::<i128, VaultError>(VaultError::AmountNotPositive)
            } else {
                r == Ok::<i128, VaultError>(flash_fee(self@, amount as int) as i128)
            },
    {
        if amount <= 0 {
            return Err(VaultError::AmountNotPositive);
        }
        let fee_bps = self.flash_loan_fee();
        Ok(amount * fee_bps / 10_000)
    }

    /// Settle a flash loan of `amount` shares to `borrower` once its
    /// callback has reported `callback_ok`. Returns the fee; the host then
    /// takes `amount` plus the fee back from the borrower and burns the
    /// principal, so the fee stays with the vault. The host requires the
    /// initiator's authorisation.
    pub fn execute_flash_loan(
        &mut self,
        initiator: Address,
        borrower: Address,
        amount: i128,
        callback_ok: bool,
    ) -> (r: Result<i128, VaultError>)
        requires
            old(self).wf(),
            flash_fits(old(self)@, amount),
        ensures
            final(self).wf(),
            if amount <= 0 {
                r == Err::<i128, VaultError>(VaultError::AmountNotPositive) && final(self)@ == old(
                    self,
                )@
            } else if !callback_ok {
                r == Err::<i128, VaultError>(VaultError::FlashLoanCallbackFailed) && final(self)@
                    == old(self)@
            } else {
                let fee = flash_fee(old(self)@, amount as int) as i128;
                r == Ok::<i128, VaultError>(fee) && final(self)@ == (VaultState {
                    events: old(self)@.events.push(
                        VaultEvent::FlashLoan(FlashLoan { initiator, borrower, amount, fee }),
                    ),
                    ..old(self)@
                })
            },
    {
        let fee = self.quote_flash_loan(amount)?;
        if !callback_ok {
            return Err(VaultError::FlashLoanCallbackFailed);
        }
        self.emit(VaultEvent::FlashLoan(FlashLoan { initiator, borrower, amount, fee }));
        Ok(fee)
    }

    /// Set the carbon oracle, which alone may set the credit price; setting
    /// the current one again changes nothing. Owner-only.
    pub fn set_carbon_oracle(&mut self, oracle: Address)
        requires
            old(self).wf(),
        ensures
            final(self).wf(),
            old(self)@.carbon_oracle == Some(oracle) ==> final(self)@ == old(self)@,
            old(self)@.carbon_oracle != Some(oracle) ==> final(self)@ == (VaultState {
                carbon_oracle: Some(oracle),
                events: old(self)@.events.push(
                    VaultEvent::CarbonOracleSet(CarbonOracleSet { oracle }),
                ),
                ..old(self)@
            }),
    {
        if let Some(current) = self.carbon_oracle {
            if current == oracle {
                return;
            }
        }
        self.carbon_oracle = Some(oracle);
        self.emit(VaultEvent::CarbonOracleSet(CarbonOracleSet { oracle }));
    }

    /// Set the carbon credit price. Returns the oracle, whose authorisation
    /// the host requires.
    pub fn set_carbon_credit_price(&mut self, price: i128) -> (r: Result<Address, VaultError>)
        requires
            old(self).wf(),
        ensures
            final(self).wf(),
            match old(self)@.carbon_oracle {
                None => r == Err::<Address, VaultError>(VaultError::CarbonOracleNotSet)
                    && final(self)@ == old(self)@,
                Some(oracle) => if price <= 0 {
                    r == Err::<Address, VaultError>(VaultError::PriceNotPositive) && final(self)@
                        == old(self)@
                } else {
                    r == Ok::<Address, VaultError>(oracle) && final(self)@ == (VaultState {
                        carbon_credit_price: Some(price),
                        events: old(self)@.events.push(
                            VaultEvent::CarbonCreditPriceSet(CarbonCreditPriceSet { price }),
                        ),
                        ..old(self)@
                    })
                },
            },
    {
        let oracle = match self.carbon_oracle {
            Some(o) => o,
            None => {
                return Err(VaultError::CarbonOracleNotSet);
            },
        };
        if price <= 0 {
            return Err(VaultError::PriceNotPositive);
        }
        self.carbon_credit_price = Some(price);
        self.emit(VaultEvent::CarbonCreditPriceSet(CarbonCreditPriceSet { price }));
        Ok(oracle)
    }

    /// The carbon credit price (0 until the oracle sets one).
    pub fn carbon_credit_price(&self) -> (r: i128)
        ensures
            r == (match self@.carbon_credit_price {
                Some(p) => p,
                None => 0,
            }),
    {
        match self.carbon_credit_price {
            Some(p) => p,
            None => 0,
        }
    }

    /// The carbon credits `amount` invested in a project earns:
    /// `amount × green_impact / CARBON_UNIT`. The calculation is recorded as
    /// an event.
    pub fn calculate_carbon_credits(
        &mut self,
        project_id: u32,
        amount: i128,
        registry: &ProjectRegistry,
    ) -> (r: Result<CarbonCreditCalculation, VaultError>)
        requires
            old(self).wf(),
            carbon_fits(registry@, project_id, amount),
        ensures
            final(self).wf(),
            match carbon_outcome(old(self)@, registry@, project_id, amount) {
                Ok((s2, calc)) => r == Ok::<CarbonCreditCalculation, VaultError>(calc)
                    && final(self)@ == s2,
                Err(e) => r == Err::<CarbonCreditCalculation, VaultError>(e) && final(self)@ == old(
                    self,
                )@,
            },
    {
        if amount <= 0 {
            return Err(VaultError::AmountNotPositive);
        }
        let green_impact = match registry.get_project(project_id) {
            Ok(p) => p.green_impact,
            Err(e) => {
                return Err(VaultError::Registry(e));
            },
        };
        proof {
            assert(0 <= amount * green_impact) by (nonlinear_arith)
                requires
                    amount > 0,
                    green_impact >= 0,
            ;
        }
        let credits = amount * (green_impact as i128) / CARBON_UNIT;
        self.emit(
            VaultEvent::CarbonCreditsCalculated(
                CarbonCreditsCalculated { project_id, amount_invested: amount, credits },
            ),
        );
        Ok(CarbonCreditCalculation { project_id, amount_invested: amount, credits })
    }

    /// The carbon credits held by `account`.
    fn read_carbon(&self, account: Address) -> (r: i128)
        ensures
            r == carbon_of(self@, account),
    {
        match self.carbon_balances.get(&account) {
            Some(v) => *v,
            None => 0,
        }
    }

    /// Credit `to` with the carbon credits that `amount` invested in a
    /// project earns, and return them.
    pub fn issue_carbon_credits(
        &mut self,
        to: Address,
        project_id: u32,
        amount: i128,
        registry: &ProjectRegistry,
    ) -> (r: Result<i128, VaultError>)
        requires
            old(self).wf(),
            issue_fits(old(self)@, registry@, to, project_id, amount),
        ensures
            final(self).wf(),
            match issue_outcome(old(self)@, registry@, to, project_id, amount) {
                Ok((s2, credits)) => r == Ok::<i128, VaultError>(credits) && final(self)@ == s2,
                Err(e) => r == Err::<i128, VaultError>(e) && final(self)@ == old(self)@,
            },
    {
        let ghost s0 = self@;
        let saved_len = self.events.len();
        let calc = self.calculate_carbon_credits(project_id, amount, registry)?;
        if calc.credits <= 0 {
            self.events.truncate(saved_len);
            proof {
                assert(self.events@ =~= s0.events);
                assert(self@ =~= s0);
            }
            return Err(VaultError::NoCarbonCredits);
        }
        let prev = self.read_carbon(to);
        self.carbon_balances.insert(to, prev + calc.credits);
        proof {
            let expected = issue_outcome(old(self)@, registry@, to, project_id, amount);
            assert(self@ =~= expected->Ok_0.0);
        }
        Ok(calc.credits)
    }

    /// Move `amount` carbon credits from `from` to `to`. The host requires
    /// `from`'s authorisation.
    pub fn transfer_carbon_credits(&mut self, from: Address, to: Address, amount: i128) -> (r:
        Result<(), VaultError>)
        requires
            old(self).wf(),
            (from != to && amount > 0 && carbon_of(old(self)@, from) >= amount) ==> carbon_of(
                old(self)@,
                to,
            ) + amount <= i128::MAX,
        ensures
            final(self).wf(),
            match carbon_transfer_outcome(old(self)@, from, to, amount) {
                Ok(s2) => r is Ok && final(self)@ == s2,
                Err(e) => r == Err::<(), VaultError>(e) && final(self)@ == old(self)@,
            },
    {
        if amount <= 0 {
            return Err(VaultError::AmountNotPositive);
        }
        let prev_from = self.read_carbon(from);
        if prev_from < amount {
            return Err(VaultError::InsufficientCarbonCredits);
        }
        if from != to {
            let prev_to = self.read_carbon(to);
            self.carbon_balances.insert(from, prev_from - amount);
            self.carbon_balances.insert(to, prev_to + amount);
        }
        self.emit(VaultEvent::CarbonCreditsTransferred(CarbonCreditsTransferred { from, to, amount }));
        proof {
            let expected = carbon_transfer_outcome(old(self)@, from, to, amount);
            assert(self@ =~= expected->Ok_0);
        }
        Ok(())
    }

    /// The carbon credits held by `account` (0 when none).
    pub fn carbon_credit_balance(&self, account: Address) -> (r: i128)
        ensures
            r == carbon_of(self@, account),
    {
        self.read_carbon(account)
    }

    /// Set the maximum transaction amount (0 means no limit); setting the
    /// amount in force again changes nothing. Owner-only.
    pub fn set_max_transaction_amount(&mut self, amount: i128) -> (r: Result<(), VaultError>)
        requires
            old(self).wf(),
        ensures
            final(self).wf(),
            if amount < 0 {
                r == Err::<(), VaultError>(VaultError::NegativeMaxTransactionAmount) && final(self)@
                    == old(self)@
            } else if amount == (match old(self)@.max_transaction_amount {
                Some(m) => m,
                None => 0,
            }) {
                r is Ok && final(self)@ == old(self)@
            } else {
                r is Ok && final(self)@ == (VaultState {
                    max_transaction_amount: Some(amount),
                    events: old(self)@.events.push(
                        VaultEvent::MaxTransactionAmountSet(MaxTransactionAmountSet { amount }),
                    ),
                    ..old(self)@
                })
            },
    {
        if amount < 0 {
            return Err(VaultError::NegativeMaxTransactionAmount);
        }
        if amount == self.max_transaction_amount() {
            return Ok(());
        }
        self.max_transaction_amount = Some(amount);
        self.emit(VaultEvent::MaxTransactionAmountSet(MaxTransactionAmountSet { amount }));
        Ok(())
    }

    /// The maximum transaction amount (0 means no limit).
    pub fn max_transaction_amount(&self) -> (r: i128)
        ensures
            r == (match self@.max_transaction_amount {
                Some(m) => m,
                None => 0,
            }),
    {
        match self.max_transaction_amount {
            Some(m) => m,
            None => 0,
        }
    }

    /// Record a compliance event at ledger time `now` under the next
    /// sequence number; only the last `MAX_COMPLIANCE_EVENTS` are kept.
    /// Owner-only.
    pub fn record_compliance_event(&mut self, event_type: Vec<u8>, data: Vec<u8>, now: u64)
        requires
            old(self).wf(),
            old(self)@.compliance_counter < u64::MAX,
        ensures
            final(self).wf(),
            ({
                let seq = (old(self)@.compliance_counter + 1) as u64;
                final(self)@ == (VaultState {
                    compliance_counter: seq,
                    compliance_events: recorded_events(
                        old(self)@.compliance_events,
                        seq,
                        ComplianceEventInfo {
                            seq,
                            timestamp: now,
                            event_type: event_type@,
                            data: data@,
                        },
                    ),
                    events: old(self)@.events.push(
                        VaultEvent::ComplianceEventRecorded(
                            ComplianceEventRecorded { seq, event_type },
                        ),
                    ),
                    ..old(self)@
                })
            }),
    {
        let seq = self.compliance_counter + 1;
        let ghost info = ComplianceEventInfo {
            seq,
            timestamp: now,
            event_type: event_type@,
            data: data@,
        };
        let stored = ComplianceEventData {
            seq,
            timestamp: now,
            event_type: copy_bytes(&event_type),
            data,
        };
        self.compliance_events.insert(seq, stored);
        self.compliance_counter = seq;
        if seq > MAX_COMPLIANCE_EVENTS {
            self.compliance_events.remove(&(seq - MAX_COMPLIANCE_EVENTS));
        }
        proof {
            assert(self@.compliance_events =~= recorded_events(
                old(self)@.compliance_events,
                seq,
                info,
            ));
            let s = self@;
            let o = old(self)@;
            assert forall|k: u64|
                #![trigger s.compliance_events.contains_key(k)]
                s.compliance_events.contains_key(k) <==> (1 <= k <= s.compliance_counter
                    && s.compliance_counter < k + MAX_COMPLIANCE_EVENTS) by {
                assert(o.compliance_events.contains_key(k) <==> (1 <= k <= o.compliance_counter
                    && o.compliance_counter < k + MAX_COMPLIANCE_EVENTS));
            }
            assert forall|k: u64|
                #![trigger s.compliance_events[k]]
                s.compliance_events.contains_key(k) implies s.compliance_events[k].seq == k by {
                if k != seq {
                    assert(o.compliance_events.contains_key(k));
                    assert(o.compliance_events[k].seq == k);
                }
            }
        }
        self.emit(VaultEvent::ComplianceEventRecorded(ComplianceEventRecorded { seq, event_type }));
    }

    /// The compliance event with sequence number `seq`, if still retained.
    pub fn get_compliance_event(&self, seq: u64) -> (r: Result<ComplianceEventData, VaultError>)
        ensures
            if self@.compliance_events.contains_key(seq) {
                r matches Ok(e) && e@ == self@.compliance_events[seq]
            } else {
                r == Err::<ComplianceEventData, VaultError>(VaultError::ComplianceEventNotFound)
            },
    {
        match self.compliance_events.get(&seq) {
            Some(e) => Ok(e.duplicate()),
            None => Err(VaultError::ComplianceEventNotFound),
        }
    }

    /// The retained compliance events numbered `from` to `to`, oldest first,
    /// at most `MAX_COMPLIANCE_EVENTS_PER_CALL` of them; empty when
    /// `from > to`.
    pub fn get_compliance_events(&self, from: u64, to: u64) -> (r: Vec<ComplianceEventData>)
        ensures
            event_infos(r@) == compliance_range(self@, from, to),
    {
        let mut result: Vec<ComplianceEventData> = Vec::new();
        if from > to {
            assert(event_infos(result@) =~= Seq::<ComplianceEventInfo>::empty());
            return result;
        }
        let last: u64 = if to - from >= MAX_COMPLIANCE_EVENTS_PER_CALL {
            from + MAX_COMPLIANCE_EVENTS_PER_CALL - 1
        } else {
            to
        };
        let count: u64 = last - from + 1;
        let mut k: u64 = 0;
        assert(event_infos(result@) =~= compliance_listing(self@, from as int, from as int));
        while k < count
            invariant
                from <= last,
                last == range_last(from, to),
                count == last - from + 1,
                k <= count,
                event_infos(result@) == compliance_listing(self@, from as int, from + k),
            decreases count - k,
        {
            let seq = from + k;
            let ghost before = result@;
            match self.compliance_events.get(&seq) {
                Some(e) => {
                    result.push(e.duplicate());
                    proof {
                        assert(self@.compliance_events.contains_key(seq));
                        assert(event_infos(result@) =~= event_infos(before).push(
                            self@.compliance_events[seq],
                        ));
                    }
                },
                None => {
                    assert(!self@.compliance_events.contains_key(seq));
                },
            }
            k = k + 1;
        }
        result
    }

    /// Record a snapshot of the vault's metrics at ledger time `now`, given
    /// the host's liquid USDC and share supply. Owner-only.
    pub fn take_reporting_snapshot(
        &mut self,
        now: u64,
        registry: &ProjectRegistry,
        liquid: i128,
        total_supply: i128,
    ) -> (r: Result<(), VaultError>)
        requires
            old(self).wf(),
            nav_fits(old(self)@, registry@, liquid),
        ensures
            final(self).wf(),
            match nav(old(self)@, registry@, liquid) {
                Ok(a) => r is Ok && final(self)@ == (VaultState {
                    snapshot: Some(
                        ReportingSnapshotData {
                            timestamp: now,
                            total_assets: a as i128,
                            total_supply,
                            total_investments: old(self)@.total_investments,
                        },
                    ),
                    events: old(self)@.events.push(
                        VaultEvent::ReportingSnapshotTaken(ReportingSnapshotTaken { timestamp: now }),
                    ),
                    ..old(self)@
                }),
                Err(e) => r == Err::<(), VaultError>(VaultError::Registry(e)) && final(self)@ == old(
                    self,
                )@,
            },
    {
        let total_assets = self.total_assets(registry, liquid)?;
        let snapshot = ReportingSnapshotData {
            timestamp: now,
            total_assets,
            total_supply,
            total_investments: self.total_investments,
        };
        self.snapshot = Some(snapshot);
        self.emit(VaultEvent::ReportingSnapshotTaken(ReportingSnapshotTaken { timestamp: now }));
        Ok(())
    }

    /// The latest reporting snapshot.
    pub fn get_latest_snapshot(&self) -> (r: Result<ReportingSnapshotData, VaultError>)
        ensures
            match self@.snapshot {
                Some(x) => r == Ok::<ReportingSnapshotData, VaultError>(x),
                None => r == Err::<ReportingSnapshotData, VaultError>(VaultError::NoSnapshot),
            },
    {
        match self.snapshot {
            Some(x) => Ok(x),
            None => Err(VaultError::NoSnapshot),
        }
    }

    /// The latest snapshot (or, before the first one, the current metrics
    /// with timestamp 0), the last `REPORT_RECENT_EVENTS` compliance events
    /// and the key parameters.
    pub fn export_regulatory_data(
        &self,
        registry: &ProjectRegistry,
        liquid: i128,
        total_supply: i128,
    ) -> (r: Result<RegulatoryReport, VaultError>)
        requires
            self.wf(),
            nav_fits(self@, registry@, liquid),
        ensures
            match nav(self@, registry@, liquid) {
                Err(e) => r == Err::<RegulatoryReport, VaultError>(VaultError::Registry(e)),
                Ok(a) => r matches Ok(rep) && rep.snapshot == (match self@.snapshot {
                    Some(x) => x,
                    None => ReportingSnapshotData {
                        timestamp: 0,
                        total_assets: a as i128,
                        total_supply,
                        total_investments: self@.total_investments,
                    },
                }) && event_infos(rep.recent_events@) == compliance_range(
                    self@,
                    report_start(self@.compliance_counter),
                    self@.compliance_counter,
                ) && rep.max_transaction_amount == (match self@.max_transaction_amount {
                    Some(m) => m,
                    None => 0,
                }) && rep.carbon_credit_price == (match self@.carbon_credit_price {
                    Some(p) => p,
                    None => 0,
                }),
            },
    {
        let current = ReportingSnapshotData {
            timestamp: 0,
            total_assets: self.total_assets(registry, liquid)?,
            total_supply,
            total_investments: self.total_investments,
        };
        let snapshot = match self.snapshot {
            Some(x) => x,
            None => current,
        };
        let counter = self.compliance_counter;
        let start = if counter > REPORT_RECENT_EVENTS {
            counter - REPORT_RECENT_EVENTS + 1
        } else {
            1
        };
        let recent_events = self.get_compliance_events(start, counter);
        Ok(
            RegulatoryReport {
                snapshot,
                recent_events,
                max_transaction_amount: self.max_transaction_amount(),
                carbon_credit_price: self.carbon_credit_price(),
            },
        )
    }

    /// Set the Wormhole core contract that verifies VAAs and publishes
    /// messages. Owner-only.
    pub fn set_wormhole_core(&mut self, core: Address)
        requires
            old(self).wf(),
        ensures
            final(self).wf(),
            final(self)@ == (VaultState { wormhole_core: Some(core), ..old(self)@ }),
    {
        self.wormhole_core = Some(core);
    }

    /// The Wormhole core contract, if configured.
    pub fn wormhole_core(&self) -> (r: Option<Address>)
        ensures
            r == self@.wormhole_core,
    {
        self.wormhole_core
    }

    /// The position of a trusted emitter entry.
    fn find_emitter(&self, chain_id: u32, emitter: &Hash32) -> (r: Option<usize>)
        ensures
            match r {
                Some(i) => i < self.trusted_emitters@.len() && emitter_keys(
                    self.trusted_emitters@,
                )[i as int] == (chain_id, emitter@),
                None => !emitter_keys(self.trusted_emitters@).contains((chain_id, emitter@)),
            },
    {
        let n = self.trusted_emitters.len();
        let mut i: usize = 0;
        while i < n
            invariant
                n == self.trusted_emitters@.len(),
                i <= n,
                forall|j: int|
                    0 <= j < i ==> emitter_keys(self.trusted_emitters@)[j] != (chain_id, emitter@),
            decreases n - i,
        {
            let (c, e) = self.trusted_emitters[i];
            if c == chain_id && hash_eq(&e, emitter) {
                return Some(i);
            }
            i = i + 1;
        }
        None
    }

    /// Whether `emitter` on `chain_id` may mint through the bridge.
    pub fn is_trusted_emitter(&self, chain_id: u32, emitter: Hash32) -> (r: bool)
        ensures
            r == self@.trusted_emitters.contains((chain_id, emitter@)),
    {
        self.find_emitter(chain_id, &emitter).is_some()
    }

    /// Allow or disallow a bridge contract on another chain to mint shares.
    /// Owner-only.
    pub fn set_trusted_emitter(&mut self, chain_id: u32, emitter: Hash32, trusted: bool)
        requires
            old(self).wf(),
        ensures
            final(self).wf(),
            final(self)@ == (VaultState {
                trusted_emitters: if trusted {
                    old(self)@.trusted_emitters.insert((chain_id, emitter@))
                } else {
                    old(self)@.trusted_emitters.remove((chain_id, emitter@))
                },
                events: old(self)@.events.push(
                    VaultEvent::TrustedEmitterSet(TrustedEmitterSet { chain_id, emitter, trusted }),
                ),
                ..old(self)@
            }),
    {
        self.update_trusted_emitter(chain_id, emitter, trusted);
        self.emit(VaultEvent::TrustedEmitterSet(TrustedEmitterSet { chain_id, emitter, trusted }));
    }

    /// Records whether an emitter is trusted.
    fn update_trusted_emitter(&mut self, chain_id: u32, emitter: Hash32, trusted: bool)
        requires
            old(self).wf(),
        ensures
            final(self).wf(),
            final(self)@ == (VaultState {
                trusted_emitters: if trusted {
                    old(self)@.trusted_emitters.insert((chain_id, emitter@))
                } else {
                    old(self)@.trusted_emitters.remove((chain_id, emitter@))
                },
                ..old(self)@
            }),
    {
        let ghost k = (chain_id, emitter@);
        let ghost keys = emitter_keys(self.trusted_emitters@);
        match self.find_emitter(chain_id, &emitter) {
            Some(i) => {
                if !trusted {
                    self.trusted_emitters.remove(i);
                    proof {
                        let keys2 = emitter_keys(self.trusted_emitters@);
                        assert(keys2 =~= keys.remove(i as int));
                        assert forall|a: int, b: int|
                            0 <= a < b < keys2.len() implies keys2[a] != keys2[b] by {
                            let a0 = if a < i { a } else { a + 1 };
                            let b0 = if b < i { b } else { b + 1 };
                            assert(keys2[a] == keys[a0] && keys2[b] == keys[b0]);
                        }
                        assert forall|x: (u32, Seq<u8>)|
                            keys2.contains(x) <==> keys.contains(x) && x != k by {
                            if keys.contains(x) && x != k {
                                let j = choose|j: int| 0 <= j < keys.len() && keys[j] == x;
                                assert(j != i);
                                let j2 = if j < i { j } else { j - 1 };
                                assert(keys2[j2] == x);
                            }
                            if keys2.contains(x) {
                                let j2 = choose|j: int| 0 <= j < keys2.len() && keys2[j] == x;
                                let j = if j2 < i { j2 } else { j2 + 1 };
                                assert(keys[j] == x);
                                assert(j != i);
                            }
                        }
                        assert(keys2.to_set() =~= keys.to_set().remove(k));
                        assert(self@ =~= (VaultState {
                            trusted_emitters: old(self)@.trusted_emitters.remove(k),
                            ..old(self)@
                        }));
                    }
                } else {
                    assert(keys.contains(k));
                    assert(keys.to_set().insert(k) =~= keys.to_set());
                }
            },
            None => {
                if trusted {
                    self.trusted_emitters.push((chain_id, emitter));
                    proof {
                        let keys2 = emitter_keys(self.trusted_emitters@);
                        assert(keys2 =~= keys.push(k));
                        lemma_push_to_set(keys, k);
                        assert forall|a: int, b: int|
                            0 <= a < b < keys2.len() implies keys2[a] != keys2[b] by {
                            if b == keys.len() {
                                assert(keys2[a] == keys[a]);
                            }
                        }
                        assert(self@ =~= (VaultState {
                            trusted_emitters: old(self)@.trusted_emitters.insert(k),
                            ..old(self)@
                        }));
                    }
                } else {
                    assert(keys.to_set().remove(k) =~= keys.to_set());
                }
            },
        }
    }

    /// The outbound message for a bridge transfer of `amount` shares to
    /// `recipient` on `target_chain`, where `token_address` is this vault's
    /// 32-byte identity, and the core contract to publish it through. The
    /// host burns the shares from the sender (whose authorisation it
    /// requires), publishes the message and then calls
    /// [`InvestmentVault::finish_bridge_transfer`].
    pub fn initiate_bridge_transfer(
        &self,
        amount: i128,
        target_chain: u32,
        recipient: Hash32,
        nonce: u64,
        token_address: Hash32,
    ) -> (r: Result<(Address, Vec<u8>), VaultError>)
        ensures
            if amount <= 0 {
                r == Err::<(Address, Vec<u8>), VaultError>(VaultError::AmountNotPositive)
            } else {
                match self@.wormhole_core {
                    None => r == Err::<(Address, Vec<u8>), VaultError>(
                        VaultError::WormholeCoreNotSet,
                    ),
                    Some(core) => r matches Ok((c, payload)) && c == core && payload@
                        == encode_payload(
                        outbound_payload(token_address, recipient, amount, target_chain, nonce),
                    ),
                }
            },
    {
        if amount <= 0 {
            return Err(VaultError::AmountNotPositive);
        }
        let payload = BridgeTransferPayload {
            token_address,
            recipient,
            amount,
            source_chain: chain_id::STELLAR,
            target_chain,
            nonce,
        };
        let payload_bytes = serialize_bridge_payload(&payload);
        match self.wormhole_core {
            Some(core) => Ok((core, payload_bytes)),
            None => Err(VaultError::WormholeCoreNotSet),
        }
    }

    /// Record a published outbound transfer under the sequence number the
    /// core contract assigned, and return that number.
    pub fn finish_bridge_transfer(
        &mut self,
        from: Address,
        amount: i128,
        target_chain: u32,
        recipient: Hash32,
        sequence: u64,
    ) -> (r: u64)
        requires
            old(self).wf(),
        ensures
            final(self).wf(),
            r == sequence,
            final(self)@ == (VaultState {
                events: old(self)@.events.push(
                    VaultEvent::BridgeTransferInitiated(
                        BridgeTransferInitiated { from, amount, target_chain, recipient, sequence },
                    ),
                ),
                ..old(self)@
            }),
    {
        self.emit(
            VaultEvent::BridgeTransferInitiated(
                BridgeTransferInitiated { from, amount, target_chain, recipient, sequence },
            ),
        );
        sequence
    }

    /// Whether a VAA digest was already used to mint.
    fn is_consumed(&self, digest: &Hash32) -> (r: bool)
        ensures
            r == self@.consumed_vaas.contains(digest@),
    {
        let n = self.consumed_vaas.len();
        let mut i: usize = 0;
        while i < n
            invariant
                n == self.consumed_vaas@.len(),
                i <= n,
                forall|j: int| 0 <= j < i ==> digest_keys(self.consumed_vaas@)[j] != digest@,
            decreases n - i,
        {
            if hash_eq(&self.consumed_vaas[i], digest) {
                assert(digest_keys(self.consumed_vaas@)[i as int] == digest@);
                return true;
            }
            i = i + 1;
        }
        assert(!digest_keys(self.consumed_vaas@).contains(digest@));
        false
    }

    /// Complete an inbound transfer whose VAA has digest `vaa_digest` and
    /// which the core contract verified as `vaa`: the emitter must be
    /// trusted for the payload's source chain and the VAA unused. Returns
    /// the transfer, whose amount the host mints to its recipient.
    pub fn complete_bridge_transfer_with_digest(&mut self, vaa_digest: Hash32, vaa: &ParsedVaa) -> (r:
        Result<BridgeTransferPayload, VaultError>)
        requires
            old(self).wf(),
        ensures
            final(self).wf(),
            match completion_error(old(self)@, vaa_digest@, vaa@) {
                Some(e) => r == Err::<BridgeTransferPayload, VaultError>(e) && final(self)@ == old(
                    self,
                )@,
                None => r matches Ok(t) && decode_payload(vaa@.payload) == Some(t@) && final(self)@
                    == (VaultState {
                    consumed_vaas: old(self)@.consumed_vaas.insert(vaa_digest@),
                    events: old(self)@.events.push(
                        VaultEvent::BridgeTransferCompleted(
                            BridgeTransferCompleted {
                                source_chain: t.source_chain,
                                emitter: vaa.emitter_address,
                                to: t.recipient,
                                amount: t.amount,
                            },
                        ),
                    ),
                    ..old(self)@
                }),
            },
    {
        if self.wormhole_core.is_none() {
            return Err(VaultError::WormholeCoreNotSet);
        }
        let transfer = match parse_bridge_payload(vaa.payload.as_slice()) {
            Some(t) => t,
            None => {
                return Err(VaultError::MalformedPayload);
            },
        };
        if self.find_emitter(transfer.source_chain, &vaa.emitter_address).is_none() {
            return Err(VaultError::EmitterNotTrusted);
        }
        if self.is_consumed(&vaa_digest) {
            return Err(VaultError::VaaAlreadyConsumed);
        }
        self.consumed_vaas.push(vaa_digest);
        proof {
            assert(digest_keys(self.consumed_vaas@) =~= digest_keys(old(self).consumed_vaas@).push(
                vaa_digest@,
            ));
            lemma_push_to_set(digest_keys(old(self).consumed_vaas@), vaa_digest@);
        }
        self.emit(
            VaultEvent::BridgeTransferCompleted(
                BridgeTransferCompleted {
                    source_chain: transfer.source_chain,
                    emitter: vaa.emitter_address,
                    to: transfer.recipient,
                    amount: transfer.amount,
                },
            ),
        );
        Ok(transfer)
    }

    /// Complete an inbound transfer from the raw VAA bytes, which the core
    /// contract verified as `vaa`; the VAA is identified by its SHA-256
    /// digest.
    pub fn complete_bridge_transfer(&mut self, vaa_bytes: &[u8], vaa: &ParsedVaa) -> (r: Result<
        BridgeTransferPayload,
        VaultError,
    >)
        requires
            old(self).wf(),
        ensures
            final(self).wf(),
            match completion_error(old(self)@, sha256_digest(vaa_bytes@), vaa@) {
                Some(e) => r == Err::<BridgeTransferPayload, VaultError>(e) && final(self)@ == old(
                    self,
                )@,
                None => r matches Ok(t) && decode_payload(vaa@.payload) == Some(t@) && final(self)@
                    == (VaultState {
                    consumed_vaas: old(self)@.consumed_vaas.insert(sha256_digest(vaa_bytes@)),
                    events: old(self)@.events.push(
                        VaultEvent::BridgeTransferCompleted(
                            BridgeTransferCompleted {
                                source_chain: t.source_chain,
                                emitter: vaa.emitter_address,
                                to: t.recipient,
                                amount: t.amount,
                            },
                        ),
                    ),
                    ..old(self)@
                }),
            },
    {
        let digest = sha256(vaa_bytes);
        self.complete_bridge_transfer_with_digest(digest, vaa)
    }

    /// The vault's net asset value: `liquid` USDC (supplied by the host),
    /// the amounts invested and their expected returns.
    pub fn total_assets(&self, registry: &ProjectRegistry, liquid: i128) -> (r: Result<
        i128,
        VaultError,
    >)
        requires
            self.wf(),
            nav_fits(self@, registry@, liquid),
        ensures
            match nav(self@, registry@, liquid) {
                Ok(v) => r == Ok::<i128, VaultError>(v as i128),
                Err(e) => r == Err::<i128, VaultError>(VaultError::Registry(e)),
            },
    {
        let base = liquid + self.total_investments;
        let expected = self.get_expected_returns(registry)?;
        Ok(base + expected)
    }

    /// The shares `usdc_amount` USDC buys at the current net asset value,
    /// given the share supply `total_shares`.
    pub fn convert_to_shares(
        &self,
        usdc_amount: i128,
        registry: &ProjectRegistry,
        liquid: i128,
        total_shares: i128,
    ) -> (r: Result<i128, VaultError>)
        requires
            self.wf(),
            total_shares >= 0,
            nav_fits(self@, registry@, liquid),
            nav(self@, registry@, liquid) matches Ok(a) ==> to_shares_fits(
                usdc_amount as int,
                total_shares as int,
                a,
            ),
        ensures
            match nav(self@, registry@, liquid) {
                Ok(a) => r == Ok::<i128, VaultError>(
                    shares_for(usdc_amount as int, total_shares as int, a) as i128,
                ),
                Err(e) => r == Err::<i128, VaultError>(VaultError::Registry(e)),
            },
    {
        let total_assets = self.total_assets(registry, liquid)?;
        if total_shares == 0 {
            Ok(usdc_amount)
        } else {
            proof {
                lemma_trunc_div_shrinks(usdc_amount * total_shares, total_assets as int);
            }
            Ok(usdc_amount * total_shares / total_assets)
        }
    }

    /// The USDC `shares_amount` shares are worth at the current net asset
    /// value, given the share supply `total_shares`.
    pub fn convert_to_assets(
        &self,
        shares_amount: i128,
        registry: &ProjectRegistry,
        liquid: i128,
        total_shares: i128,
    ) -> (r: Result<i128, VaultError>)
        requires
            self.wf(),
            total_shares >= 0,
            nav_fits(self@, registry@, liquid),
            nav(self@, registry@, liquid) matches Ok(a) ==> to_assets_fits(
                shares_amount as int,
                total_shares as int,
                a,
            ),
        ensures
            match nav(self@, registry@, liquid) {
                Ok(a) => r == Ok::<i128, VaultError>(
                    assets_for(shares_amount as int, total_shares as int, a) as i128,
                ),
                Err(e) => r == Err::<i128, VaultError>(VaultError::Registry(e)),
            },
    {
        let total_assets = self.total_assets(registry, liquid)?;
        if total_shares == 0 {
            Ok(0)
        } else {
            proof {
                lemma_trunc_div_shrinks(shares_amount * total_assets, total_shares as int);
            }
            Ok(shares_amount * total_assets / total_shares)
        }
    }
}

/// Every reachable vault keeps exactly the last `MAX_COMPLIANCE_EVENTS`
/// compliance events, a flash-loan fee within 0–1 000 bps, and no negative
/// insurance fund, investment or carbon balance.
pub proof fn law_vault_invariant(v: &InvestmentVault)
    requires
        v.wf(),
    ensures
        vault_ok(v@),
        compliance_window(v@),
{
}

} // verus!
