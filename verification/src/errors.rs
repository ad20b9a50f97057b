use vstd::prelude::*;

verus! {

/// The program's own error conditions.
#[derive(Clone, Copy, Debug, PartialEq, Eq, Structural)]
pub enum CustomError {
    /// Admin is the same
    AdminIsSame,
    /// Invalid protocol fee percentage
    InvalidProtocolFeePercentage,
    /// Invalid tip percentage
    InvalidTipPercentage,
    /// Operator is the same
    OperatorIsSame,
    /// Deposit deadline must be in the future
    DepositDeadlineMustBeInTheFuture,
    /// Trade deadline must be after deposit deadline
    TradeDeadlineMustBeAfterDepositDeadline,
    /// Campaign Creator not match
    CampaignCreatorNotMatch,
    /// Campaign Index not match
    CampaignIndexNotMatch,
    /// Campaign reached goal
    CampaignReachedGoal,
    /// Campaign deposit deadline has passed
    CampaignDepositDeadlinePassed,
    /// Campaign deposit deadline not passed
    CampaignDepositDeadlineNotPassed,
    /// Campaign already claimed fund
    CampaignAlreadyClaimed,
    /// Campaign donation goal not reached
    CampaignDonationGoalNotReached,
    /// Campaign token already created
    TokenAlreadyCreated,
    /// Campaign token not created
    TokenNotCreated,
    /// Campaign already bought token
    CampaignAlreadyBoughtToken,
    /// Campaign already sold all token
    CampaignAlreadySoldAllToken,
    /// Campaign trade deadline not passed
    CampaignTradeDeadlineNotPassed,
    /// Claim amount exceeds total token bought
    ExceedsTotalTokenBought,
}

/// Why an instruction fails.
#[derive(Clone, Copy, Debug, PartialEq, Eq, Structural)]
pub enum Error {
    /// One of the program's own checks failed.
    Custom(CustomError),
    /// An account does not sit at the address its seeds derive for this program (a
    /// `seeds` account constraint).
    ConstraintSeeds,
    /// An account's stored owner field does not match the account given for it
    /// (a `has_one` account constraint).
    ConstraintHasOne,
    /// A lamport balance would leave the range of `u64`.
    ArithmeticOverflow,
}

} // verus!
