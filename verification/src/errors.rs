use vstd::prelude::*;

verus! {

/// Represents a distinct error type that can occur within the contract.
#[derive(Copy, Clone, Debug, PartialEq, Eq, PartialOrd, Ord, Structural)]
pub enum Error {
    /// The caller is not authorized to perform this action.
    NotAuthorized,
    /// No campaign exists with the given ID.
    CampaignNotFound,
    /// The campaign is not in an active state (cancelled or closed).
    CampaignNotActive,
    /// The provided funding goal must be a positive amount.
    FundingGoalMustBePositive,
    /// The campaign duration must be between 1 and 365 days.
    InvalidDuration,
    /// The revenue share percentage is out of the allowed range.
    InvalidRevenueShare,
    /// Revenue sharing is only permitted for `EducationalStartup` campaigns.
    RevenueShareOnlyForStartup,
    /// The contribution was made after the campaign's deadline.
    DeadlinePassed,
    /// Contribution amount must be greater than zero.
    ContributionMustBePositive,
    /// The action requires the deadline to have already passed.
    DeadlineNotPassed,
    /// Funds have already been withdrawn from this campaign.
    FundsAlreadyWithdrawn,
    /// The campaign has not yet reached its funding goal.
    FundingGoalNotReached,
    /// There are no funds available to withdraw or claim.
    NoFundsToWithdraw,
    /// The campaign has already been verified.
    CampaignAlreadyVerified,
    /// A general input validation constraint was violated.
    ValidationFailed,
    /// The caller has already voted on this campaign.
    AlreadyVoted,
    /// The caller holds no tokens and is therefore not eligible to vote.
    NotTokenHolder,
    /// Not enough votes have been cast to reach the required quorum.
    VotingQuorumNotMet,
    /// The approval vote share did not meet the required threshold.
    VotingThresholdNotMet,
    /// The contract has already been initialized.
    AlreadyInitialized,
}

/// The numeric code under which each error is reported to callers of the contract.
pub open spec fn spec_error_code(e: Error) -> u32 {
    match e {
        Error::NotAuthorized => 1,
        Error::CampaignNotFound => 2,
        Error::CampaignNotActive => 3,
        Error::FundingGoalMustBePositive => 4,
        Error::InvalidDuration => 5,
        Error::InvalidRevenueShare => 6,
        Error::RevenueShareOnlyForStartup => 7,
        Error::DeadlinePassed => 8,
        Error::ContributionMustBePositive => 9,
        Error::DeadlineNotPassed => 10,
        Error::FundsAlreadyWithdrawn => 11,
        Error::FundingGoalNotReached => 12,
        Error::NoFundsToWithdraw => 13,
        Error::CampaignAlreadyVerified => 14,
        Error::ValidationFailed => 15,
        Error::AlreadyVoted => 16,
        Error::NotTokenHolder => 17,
        Error::VotingQuorumNotMet => 18,
        Error::VotingThresholdNotMet => 19,
        Error::AlreadyInitialized => 20,
    }
}

impl Error {
    /// The contract-level error code of this error (1 to 20).
    pub fn code(&self) -> (c: u32)
        ensures
            c == spec_error_code(*self),
    {
        match self {
            Error::NotAuthorized => 1,
            Error::CampaignNotFound => 2,
            Error::CampaignNotActive => 3,
            Error::FundingGoalMustBePositive => 4,
            Error::InvalidDuration => 5,
            Error::InvalidRevenueShare => 6,
            Error::RevenueShareOnlyForStartup => 7,
            Error::DeadlinePassed => 8,
            Error::ContributionMustBePositive => 9,
            Error::DeadlineNotPassed => 10,
            Error::FundsAlreadyWithdrawn => 11,
            Error::FundingGoalNotReached => 12,
            Error::NoFundsToWithdraw => 13,
            Error::CampaignAlreadyVerified => 14,
            Error::ValidationFailed => 15,
            Error::AlreadyVoted => 16,
            Error::NotTokenHolder => 17,
            Error::VotingQuorumNotMet => 18,
            Error::VotingThresholdNotMet => 19,
            Error::AlreadyInitialized => 20,
        }
    }
}

} // verus!
