//! Records, errors and events of the investment vault.
use vstd::prelude::*;
use crate::common::{Address, Hash32, copy_bytes};
use crate::registry_types::RegistryError;

verus! {

/// Why a vault call was refused.
#[derive(Clone, Copy, PartialEq, Eq, Structural, Debug)]
pub enum VaultError {
    /// An amount that must be positive was zero or negative.
    AmountNotPositive,
    /// A share amount that must be positive was zero or negative.
    SharesNotPositive,
    /// The vault does not hold enough deployable USDC.
    InsufficientLiquidity,
    /// No bridge contract is configured.
    BridgeNotSet,
    /// A flash-loan fee outside 0–1000 bps.
    FeeOutOfRange,
    /// The flash-loan receiver reported failure.
    FlashLoanCallbackFailed,
    /// No carbon oracle is configured.
    CarbonOracleNotSet,
    /// A carbon credit price that is zero or negative.
    PriceNotPositive,
    /// The investment earns no carbon credits.
    NoCarbonCredits,
    /// The sender holds fewer carbon credits than it transfers.
    InsufficientCarbonCredits,
    /// A negative maximum transaction amount.
    NegativeMaxTransactionAmount,
    /// No compliance event with that sequence number is retained.
    ComplianceEventNotFound,
    /// No reporting snapshot has been taken.
    NoSnapshot,
    /// No Wormhole core contract is configured.
    WormholeCoreNotSet,
    /// The bridge payload is not a well-formed transfer message.
    MalformedPayload,
    /// The VAA's emitter is not trusted for its source chain.
    EmitterNotTrusted,
    /// The VAA was already used to mint.
    VaaAlreadyConsumed,
    /// The project registry refused the lookup.
    Registry(RegistryError),
    /// A deposit below the minimum deposit.
    BelowMinimumDeposit,
    /// A deposit above the single-deposit ceiling.
    AboveMaximumDeposit,
    /// The deposit would raise the share supply above its cap.
    SupplyCapExceeded,
    /// A withdrawal below the minimum withdrawal.
    BelowMinimumWithdrawal,
    /// The caller's last deposit is still locked.
    DepositLocked,
    /// The redemption pays less than the caller's minimum.
    SlippageExceeded,
    /// The redemption exceeds the limit of the vault's utilisation tier.
    WithdrawalLimitExceeded,
    /// The vault owner may not fund a project it owns.
    SelfFunding,
}

/// The carbon credits an investment in a project earns.
#[derive(Clone, Copy, PartialEq, Eq, Structural, Debug)]
pub struct CarbonCreditCalculation {
    pub project_id: u32,
    pub amount_invested: i128,
    pub credits: i128,
}

/// A recorded compliance event, kept for the audit trail.
#[derive(Clone, Debug)]
pub struct ComplianceEventData {
    pub seq: u64,
    pub timestamp: u64,
    pub event_type: Vec<u8>,
    pub data: Vec<u8>,
}

/// A compliance event by value.
pub struct ComplianceEventInfo {
    pub seq: u64,
    pub timestamp: u64,
    pub event_type: Seq<u8>,
    pub data: Seq<u8>,
}

impl View for ComplianceEventData {
    type V = ComplianceEventInfo;

    open spec fn view(&self) -> ComplianceEventInfo {
        ComplianceEventInfo {
            seq: self.seq,
            timestamp: self.timestamp,
            event_type: self.event_type@,
            data: self.data@,
        }
    }
}

impl ComplianceEventData {
    /// An owned copy of the event.
    pub fn duplicate(&self) -> (r: ComplianceEventData)
        ensures
            r@ == self@,
    {
        ComplianceEventData {
            seq: self.seq,
            timestamp: self.timestamp,
            event_type: copy_bytes(&self.event_type),
            data: copy_bytes(&self.data),
        }
    }
}

/// A snapshot of the vault's key metrics for regulatory reporting.
#[derive(Clone, Copy, PartialEq, Eq, Structural, Debug)]
pub struct ReportingSnapshotData {
    pub timestamp: u64,
    pub total_assets: i128,
    pub total_supply: i128,
    pub total_investments: i128,
}

/// The latest snapshot with the most recent compliance events and the key
/// parameters, for regulators.
#[derive(Clone, Debug)]
pub struct RegulatoryReport {
    pub snapshot: ReportingSnapshotData,
    pub recent_events: Vec<ComplianceEventData>,
    pub max_transaction_amount: i128,
    pub carbon_credit_price: i128,
}

/// An investor deposited USDC and received shares.
#[derive(Clone, Copy, PartialEq, Eq, Structural, Debug)]
pub struct Deposit {
    pub from: Address,
    pub usdc_amount: i128,
    pub shares_minted: i128,
}

/// An investor burned shares and withdrew USDC.
#[derive(Clone, Copy, PartialEq, Eq, Structural, Debug)]
pub struct Withdraw {
    pub from: Address,
    pub shares_burned: i128,
    pub usdc_returned: i128,
}

/// A redemption the liquid USDC could not cover was queued.
#[derive(Clone, Copy, PartialEq, Eq, Structural, Debug)]
pub struct RedemptionQueued {
    pub from: Address,
    pub shares_burned: i128,
    pub usdc_owed: i128,
}

/// A withdrawal was made while most of the vault's USDC is deployed.
#[derive(Clone, Copy, PartialEq, Eq, Structural, Debug)]
pub struct UtilizationWarning {
    pub utilization_bps: u32,
}

/// A queued redemption was paid.
#[derive(Clone, Copy, PartialEq, Eq, Structural, Debug)]
pub struct RedemptionSettled {
    pub to: Address,
    pub amount: i128,
}

/// The vault funded a registered project.
#[derive(Clone, Copy, PartialEq, Eq, Structural, Debug)]
pub struct ProjectFunded {
    pub project_id: u32,
    pub amount: i128,
    pub recipient: Address,
}

/// The bridge contract was set.
#[derive(Clone, Copy, PartialEq, Eq, Structural, Debug)]
pub struct BridgeSet {
    pub bridge: Address,
}

/// Shares were minted by the bridge.
#[derive(Clone, Copy, PartialEq, Eq, Structural, Debug)]
pub struct BridgeMint {
    pub to: Address,
    pub amount: i128,
}

/// Shares were burned for outbound bridging.
#[derive(Clone, Copy, PartialEq, Eq, Structural, Debug)]
pub struct BridgeBurn {
    pub from: Address,
    pub amount: i128,
}

/// An outbound bridge transfer was published.
#[derive(Clone, Copy, PartialEq, Eq, Debug)]
pub struct BridgeTransferInitiated {
    pub from: Address,
    pub amount: i128,
    pub target_chain: u32,
    pub recipient: Hash32,
    pub sequence: u64,
}

/// An inbound bridge transfer was completed.
#[derive(Clone, Copy, PartialEq, Eq, Debug)]
pub struct BridgeTransferCompleted {
    pub source_chain: u32,
    pub emitter: Hash32,
    pub to: Hash32,
    pub amount: i128,
}

/// An emitter was marked trusted or untrusted for a source chain.
#[derive(Clone, Copy, PartialEq, Eq, Debug)]
pub struct TrustedEmitterSet {
    pub chain_id: u32,
    pub emitter: Hash32,
    pub trusted: bool,
}

/// A flash loan was executed.
#[derive(Clone, Copy, PartialEq, Eq, Structural, Debug)]
pub struct FlashLoan {
    pub initiator: Address,
    pub borrower: Address,
    pub amount: i128,
    pub fee: i128,
}

/// The flash-loan fee was changed.
#[derive(Clone, Copy, PartialEq, Eq, Structural, Debug)]
pub struct FlashLoanFeeSet {
    pub fee_bps: i128,
}

/// The carbon oracle was set.
#[derive(Clone, Copy, PartialEq, Eq, Structural, Debug)]
pub struct CarbonOracleSet {
    pub oracle: Address,
}

/// The carbon oracle set the per-credit price.
#[derive(Clone, Copy, PartialEq, Eq, Structural, Debug)]
pub struct CarbonCreditPriceSet {
    pub price: i128,
}

/// Carbon credits were calculated for a project investment.
#[derive(Clone, Copy, PartialEq, Eq, Structural, Debug)]
pub struct CarbonCreditsCalculated {
    pub project_id: u32,
    pub amount_invested: i128,
    pub credits: i128,
}

/// Carbon credits moved between accounts.
#[derive(Clone, Copy, PartialEq, Eq, Structural, Debug)]
pub struct CarbonCreditsTransferred {
    pub from: Address,
    pub to: Address,
    pub amount: i128,
}

/// The maximum transaction amount was set.
#[derive(Clone, Copy, PartialEq, Eq, Structural, Debug)]
pub struct MaxTransactionAmountSet {
    pub amount: i128,
}

/// A compliance event was recorded.
#[derive(Clone, Debug)]
pub struct ComplianceEventRecorded {
    pub seq: u64,
    pub event_type: Vec<u8>,
}

/// A reporting snapshot was taken.
#[derive(Clone, Copy, PartialEq, Eq, Structural, Debug)]
pub struct ReportingSnapshotTaken {
    pub timestamp: u64,
}

/// An event published by the vault.
#[derive(Clone, Debug)]
pub enum VaultEvent {
    Deposit(Deposit),
    Withdraw(Withdraw),
    ProjectFunded(ProjectFunded),
    BridgeSet(BridgeSet),
    BridgeMint(BridgeMint),
    BridgeBurn(BridgeBurn),
    BridgeTransferInitiated(BridgeTransferInitiated),
    BridgeTransferCompleted(BridgeTransferCompleted),
    TrustedEmitterSet(TrustedEmitterSet),
    FlashLoan(FlashLoan),
    FlashLoanFeeSet(FlashLoanFeeSet),
    CarbonOracleSet(CarbonOracleSet),
    CarbonCreditPriceSet(CarbonCreditPriceSet),
    CarbonCreditsCalculated(CarbonCreditsCalculated),
    CarbonCreditsTransferred(CarbonCreditsTransferred),
    MaxTransactionAmountSet(MaxTransactionAmountSet),
    ComplianceEventRecorded(ComplianceEventRecorded),
    ReportingSnapshotTaken(ReportingSnapshotTaken),
    RedemptionQueued(RedemptionQueued),
    RedemptionSettled(RedemptionSettled),
    UtilizationWarning(UtilizationWarning),
}

} // verus!
