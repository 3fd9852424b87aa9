use vstd::prelude::*;

verus! {

/// Represents a category for a campaign, determining its type and eligibility for revenue sharing.
#[derive(Copy, Clone, Debug, PartialEq, Eq, Structural)]
pub enum Category {
    /// A learner seeking funding for education.
    Learner,
    /// An educational startup eligible for revenue sharing.
    EducationalStartup,
    /// An educator creating learning content.
    Educator,
    /// A publisher creating educational materials.
    Publisher,
}

/// Stores all details related to a funding campaign.
///
/// Addresses are held as their string encoding; two addresses are the same
/// account exactly when their strings are equal.
#[derive(Clone, Debug, PartialEq, Eq)]
pub struct Campaign {
    /// Unique numeric identifier assigned at creation.
    pub id: u32,
    /// The address of the campaign creator.
    pub creator: String,
    /// Short display name of the campaign.
    pub title: String,
    /// Long description of the campaign's purpose.
    pub description: String,
    /// Target token amount required to consider the campaign successful.
    pub funding_goal: i128,
    /// Unix timestamp after which contributions are no longer accepted.
    pub deadline: u64,
    /// Total tokens raised so far.
    pub amount_raised: i128,
    /// Whether the campaign is currently accepting contributions.
    pub is_active: bool,
    /// Whether the creator has already withdrawn funds.
    pub funds_withdrawn: bool,
    /// Whether the campaign has been cancelled by the creator.
    pub is_cancelled: bool,
    /// Whether the campaign has been verified (by admin or community vote).
    pub is_verified: bool,
    /// The category of the campaign.
    pub category: Category,
    /// Whether contributors are entitled to a share of future revenue.
    pub has_revenue_sharing: bool,
    /// Percentage of deposited revenue distributed to contributors, in basis points.
    pub revenue_share_percentage: u32,
}

impl Campaign {
    /// A field-by-field copy of this campaign.
    pub fn duplicate(&self) -> (c: Campaign)
        ensures
            c == *self,
    {
        Campaign {
            id: self.id,
            creator: self.creator.clone(),
            title: self.title.clone(),
            description: self.description.clone(),
            funding_goal: self.funding_goal,
            deadline: self.deadline,
            amount_raised: self.amount_raised,
            is_active: self.is_active,
            funds_withdrawn: self.funds_withdrawn,
            is_cancelled: self.is_cancelled,
            is_verified: self.is_verified,
            category: self.category,
            has_revenue_sharing: self.has_revenue_sharing,
            revenue_share_percentage: self.revenue_share_percentage,
        }
    }
}

/// One side of a token transfer requested by the contract.
#[derive(Clone, Debug, PartialEq, Eq)]
pub enum Party {
    /// The contract's own account.
    Contract,
    /// The platform admin, as stored when the transfer is carried out.
    Admin,
    /// The account with the given address.
    Account(String),
}

/// A transfer of the contract's configured token that an operation requests.
#[derive(Clone, Debug, PartialEq, Eq)]
pub struct Transfer {
    pub from: Party,
    pub to: Party,
    pub amount: i128,
}

/// An event published by a successful operation.
#[derive(Clone, Debug, PartialEq, Eq)]
pub enum ContractEvent {
    /// `("initialized", admin)` with data `(token, platform_fee)`.
    Initialized { admin: String, token: String, platform_fee: u32 },
    /// `("campaign_created", campaign_id, creator)` with data `title`.
    CampaignCreated { campaign_id: u32, creator: String, title: String },
    /// `("contribution_made", campaign_id, contributor)` with data `amount`.
    ContributionMade { campaign_id: u32, contributor: String, amount: i128 },
    /// `("withdrawal", campaign_id, creator)` with data `creator_amount`.
    Withdrawal { campaign_id: u32, creator: String, creator_amount: i128 },
    /// `("campaign_cancelled", campaign_id)`.
    CampaignCancelled { campaign_id: u32 },
    /// `("campaign_updated", campaign_id)` with data `title`.
    CampaignUpdated { campaign_id: u32, title: String },
    /// `("campaign_description_updated", campaign_id)`.
    CampaignDescriptionUpdated { campaign_id: u32 },
    /// `("refund_claimed", campaign_id, contributor)` with data `amount`.
    RefundClaimed { campaign_id: u32, contributor: String, amount: i128 },
    /// `("revenue_deposited", campaign_id)` with data `amount`.
    RevenueDeposited { campaign_id: u32, amount: i128 },
    /// `("revenue_claimed", campaign_id, contributor)` with data `amount`.
    RevenueClaimed { campaign_id: u32, contributor: String, amount: i128 },
    /// `("creator_revenue_claimed", campaign_id, creator)` with data `amount`.
    CreatorRevenueClaimed { campaign_id: u32, creator: String, amount: i128 },
    /// `("campaign_vote_cast", campaign_id, voter)` with data `approve`.
    VoteCast { campaign_id: u32, voter: String, approve: bool },
    /// `("campaign_verified", campaign_id)`, published by the admin's verification.
    CampaignVerified { campaign_id: u32 },
    /// `("campaign_verified", campaign_id)` with data `approve_votes`, published by a passing vote.
    CampaignVerifiedByVotes { campaign_id: u32, approve_votes: u32 },
    /// `("fee_updated",)` with data `(old_fee, new_fee)`.
    FeeUpdated { old_fee: u32, new_fee: u32 },
    /// `("admin_updated",)` with data `(old_admin, new_admin)`.
    AdminUpdated { old_admin: String, new_admin: String },
}

} // verus!
