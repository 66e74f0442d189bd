//! The reasons for which a call is refused.
use vstd::prelude::*;

verus! {

/// Why a call was refused. A refused call leaves the contract unchanged; the
/// host reverts the transaction with the message that the variant names.
#[derive(Clone, Copy, Debug, PartialEq, Eq, Structural)]
pub enum Error {
    /// "already initialized"
    AlreadyInitialized,
    /// the contract has not been initialized
    NotInitialized,
    /// "unauthorized"
    Unauthorized,
    /// no administrator hand-over is pending
    NoPendingAdmin,
    /// an arithmetic result does not fit its type
    Overflow,
    // ---- ad registry
    /// "invalid content size"
    InvalidContentSize,
    /// "content not found"
    ContentNotFound,
    /// "cannot flag own content"
    CannotFlagOwnContent,
    /// "content not approved"
    ContentNotApproved,
    /// "performance not found"
    PerformanceNotFound,
    // ---- campaign orchestrator
    /// "campaign type not found"
    CampaignTypeNotFound,
    /// "budget too low"
    BudgetTooLow,
    /// "invalid duration"
    InvalidDuration,
    /// "campaign not found"
    CampaignNotFound,
    /// "publisher not verified"
    PublisherNotVerified,
    /// "campaign not active"
    CampaignNotActive,
    /// "campaign target reached"
    CampaignTargetReached,
    /// "campaign expired"
    CampaignExpired,
    /// "insufficient budget"
    InsufficientBudget,
    /// "daily view limit reached"
    DailyViewLimitReached,
    /// "campaign not refundable"
    CampaignNotRefundable,
    /// "fee too high"
    FeeTooHigh,
    /// "campaign not found in lifecycle contract"
    CampaignNotInLifecycle,
    /// "escrow cannot be released - insufficient budget or conditions not met"
    EscrowCannotRelease,
    // ---- dispute resolution
    /// "invalid claim amount"
    InvalidClaimAmount,
    /// "arbitrator not authorized"
    ArbitratorNotAuthorized,
    /// "dispute not found"
    DisputeNotFound,
    /// "not assigned arbitrator"
    NotAssignedArbitrator,
    /// "already resolved"
    AlreadyResolved,
    // ---- governance dao
    /// "insufficient tokens to create proposal"
    InsufficientProposerTokens,
    /// "already voted"
    AlreadyVoted,
    /// "insufficient governance tokens"
    InsufficientGovernanceTokens,
    /// "proposal not found"
    ProposalNotFound,
    /// "proposal not active"
    ProposalNotActive,
    /// "voting period ended"
    VotingPeriodEnded,
    /// "invalid voting power"
    InvalidVotingPower,
    /// "voting period not ended"
    VotingPeriodNotEnded,
    /// "proposal not passed"
    ProposalNotPassed,
    // ---- governance token
    /// "invalid amount"
    InvalidAmount,
    /// "insufficient balance"
    InsufficientBalance,
    /// "allowance expired"
    AllowanceExpired,
    /// "insufficient allowance"
    InsufficientAllowance,
    /// "exceeds max supply"
    ExceedsMaxSupply,
    // ---- liquidity pool
    /// "no position"
    NoPosition,
    /// "insufficient shares"
    InsufficientShares,
    /// "no shares in pool"
    NoSharesInPool,
    /// "insufficient liquidity"
    InsufficientLiquidity,
    /// "already has borrow"
    AlreadyHasBorrow,
    /// "borrow not found"
    BorrowNotFound,
    /// "insufficient payment"
    InsufficientPayment,
    // ---- milestone tracker
    /// "duration too short: minimum is 3600 seconds"
    DurationTooShort,
    /// "milestone not found"
    MilestoneNotFound,
    // ---- performance oracle
    /// "not authorized attester"
    NotAuthorizedAttester,
    /// "already attested"
    AlreadyAttested,
    /// "attester index not found"
    AttesterIndexNotFound,
    /// "attestation not found"
    AttestationNotFound,
    // ---- publisher network
    /// "already in network"
    AlreadyInNetwork,
    /// "not in network"
    NotInNetwork,
    /// "fraud contract not set"
    FraudContractNotSet,
    /// "unauthorized fraud contract"
    UnauthorizedFraudContract,
    // ---- token bridge
    /// "max_daily_limit must be positive"
    NonPositiveDailyLimit,
    /// "chain not supported"
    ChainNotSupported,
    /// "daily transfer limit exceeded for chain"
    DailyLimitExceeded,
    /// "bridge fee calculation overflow"
    BridgeFeeOverflow,
    /// "unauthorized relayer"
    UnauthorizedRelayer,
    /// "deposit not found"
    DepositNotFound,
    /// "not pending"
    NotPending,
    /// "cannot refund"
    CannotRefund,
}

} // verus!
