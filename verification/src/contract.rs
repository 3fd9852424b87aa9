//! The contract's operations, each as a step on the environment.
use vstd::prelude::*;

use vstd::utf8::encode_utf8;

use crate::env::{authorized, Env, EnvView};
use crate::errors::Error;
use crate::revenue::{contributor_due, contributor_pool, fee_amount, spec_contributor_due, spec_contributor_pool, spec_fee_amount};
use crate::storage::StoreView;
use crate::types::{Campaign, Category, ContractEvent, Party, Transfer};
use crate::voting::{
    admin_verify, admin_verify_post, admin_verify_result, cast_vote, cast_vote_fits, cast_vote_post, cast_vote_result,
    quorum, set_params, set_params_post, set_params_result, threshold, verify_with_votes, verify_with_votes_fits,
    verify_with_votes_post, verify_with_votes_result, vote_target_result, DEFAULT_APPROVAL_THRESHOLD_BPS,
    DEFAULT_MIN_VOTES_QUORUM,
};

verus! {

/// Current contract version. Increment this on each breaking upgrade.
pub const CONTRACT_VERSION: u32 = 1;

/// The highest platform fee, in basis points (10%).
pub const MAX_PLATFORM_FEE: u32 = 1000;

/// Seconds in a day, by which a campaign's duration becomes its deadline.
pub const SECONDS_PER_DAY: u64 = 86400;

/// Longest title, in bytes.
pub const MAX_TITLE_LEN: usize = 100;

/// Longest description, in bytes.
pub const MAX_DESCRIPTION_LEN: usize = 1000;

/// Longest campaign, in days.
pub const MAX_DURATION_DAYS: u64 = 365;

/// Highest revenue share a campaign may promise its contributors, in basis points (50%).
pub const MAX_REVENUE_SHARE_BPS: u32 = 5000;

/// A requested fee, capped at 10%.
pub open spec fn capped_fee(fee: u32) -> u32 {
    if fee > MAX_PLATFORM_FEE { MAX_PLATFORM_FEE } else { fee }
}

/// The length of a text in bytes of its UTF-8 encoding, as the machine
/// reports it.
pub open spec fn byte_len(s: String) -> usize {
    encode_utf8(s@).len() as usize
}

/// A text that is not empty and at most `max` bytes long.
pub open spec fn valid_text(s: String, max: nat) -> bool {
    0 < byte_len(s) <= max
}

/// Whether `s` is not empty and at most `max` bytes long.
pub(crate) fn text_fits(s: &String, max: usize) -> (r: bool)
    ensures
        r == valid_text(*s, max as nat),
{
    let n = s.as_str().len();
    n != 0 && n <= max
}

// ── init ─────────────────────────────────────────────────────────────────

pub open spec fn init_result(e: EnvView) -> Result<(), Error> {
    if e.storage.admin is Some {
        Err(Error::AlreadyInitialized)
    } else {
        Ok(())
    }
}

pub open spec fn init_post(e: EnvView, admin: String, token: String, platform_fee: u32) -> EnvView {
    EnvView {
        storage: StoreView {
            admin: Some(admin),
            token: Some(token),
            platform_fee: Some(capped_fee(platform_fee)),
            campaign_count: Some(0),
            version: Some(CONTRACT_VERSION),
            min_votes_quorum: Some(DEFAULT_MIN_VOTES_QUORUM),
            approval_threshold_bps: Some(DEFAULT_APPROVAL_THRESHOLD_BPS),
            ..e.storage
        },
        events: e.events.push(ContractEvent::Initialized { admin, token, platform_fee: capped_fee(platform_fee) }),
        ..e
    }
}

// ── create_campaign ──────────────────────────────────────────────────────

pub open spec fn create_campaign_result(
    e: EnvView,
    title: String,
    description: String,
    funding_goal: i128,
    duration_days: u64,
    category: Category,
    has_revenue_sharing: bool,
    revenue_share_percentage: u32,
) -> Result<u32, Error> {
    if funding_goal <= 0 {
        Err(Error::FundingGoalMustBePositive)
    } else if !(1 <= duration_days <= MAX_DURATION_DAYS) {
        Err(Error::InvalidDuration)
    } else if !valid_text(title, MAX_TITLE_LEN as nat) {
        Err(Error::ValidationFailed)
    } else if !valid_text(description, MAX_DESCRIPTION_LEN as nat) {
        Err(Error::ValidationFailed)
    } else if category != Category::EducationalStartup && has_revenue_sharing {
        Err(Error::RevenueShareOnlyForStartup)
    } else if has_revenue_sharing && (revenue_share_percentage == 0 || revenue_share_percentage > MAX_REVENUE_SHARE_BPS) {
        Err(Error::InvalidRevenueShare)
    } else {
        Ok((e.storage.campaign_count_value() + 1) as u32)
    }
}

/// The arithmetic of a successful creation stays within machine integers.
pub open spec fn create_campaign_fits(e: EnvView, duration_days: u64) -> bool {
    &&& e.storage.campaign_count_value() < u32::MAX
    &&& e.timestamp + duration_days * SECONDS_PER_DAY <= u64::MAX
}

pub open spec fn create_campaign_post(
    e: EnvView,
    creator: String,
    title: String,
    description: String,
    funding_goal: i128,
    duration_days: u64,
    category: Category,
    has_revenue_sharing: bool,
    revenue_share_percentage: u32,
) -> EnvView {
    let id = (e.storage.campaign_count_value() + 1) as u32;
    let campaign = Campaign {
        id,
        creator,
        title,
        description,
        funding_goal,
        deadline: (e.timestamp + duration_days * SECONDS_PER_DAY) as u64,
        amount_raised: 0,
        is_active: true,
        funds_withdrawn: false,
        is_cancelled: false,
        is_verified: false,
        category,
        has_revenue_sharing,
        revenue_share_percentage,
    };
    EnvView {
        storage: StoreView {
            campaigns: e.storage.campaigns.insert(id, campaign),
            campaign_count: Some(id),
            revenue_pool: e.storage.revenue_pool.insert(id, 0),
            ..e.storage
        },
        events: e.events.push(ContractEvent::CampaignCreated { campaign_id: id, creator, title }),
        ..e
    }
}

// ── contribute ───────────────────────────────────────────────────────────

pub open spec fn contribute_result(e: EnvView, campaign_id: u32, contributor: String, amount: i128) -> Result<(), Error> {
    if amount <= 0 {
        Err(Error::ContributionMustBePositive)
    } else if !e.storage.campaigns.contains_key(campaign_id) {
        Err(Error::CampaignNotFound)
    } else {
        let c = e.storage.campaigns[campaign_id];
        if !c.is_active || c.is_cancelled {
            Err(Error::CampaignNotActive)
        } else if contributor@ == c.creator@ {
            Err(Error::NotAuthorized)
        } else if e.timestamp > c.deadline {
            Err(Error::DeadlinePassed)
        } else {
            Ok(())
        }
    }
}

/// The arithmetic of a successful contribution stays within machine integers.
pub open spec fn contribute_fits(e: EnvView, campaign_id: u32, contributor: String, amount: i128) -> bool {
    &&& e.storage.campaigns[campaign_id].amount_raised + amount <= i128::MAX
    &&& e.storage.contribution(campaign_id, contributor@) + amount <= i128::MAX
}

pub open spec fn contribute_post(e: EnvView, campaign_id: u32, contributor: String, amount: i128) -> EnvView {
    let c = e.storage.campaigns[campaign_id];
    EnvView {
        storage: StoreView {
            campaigns: e.storage.campaigns.insert(
                campaign_id,
                Campaign { amount_raised: (c.amount_raised + amount) as i128, ..c },
            ),
            contributions: e.storage.contributions.insert(
                (campaign_id, contributor@),
                (e.storage.contribution(campaign_id, contributor@) + amount) as i128,
            ),
            ..e.storage
        },
        transfers: e.transfers.push(Transfer { from: Party::Account(contributor), to: Party::Contract, amount }),
        events: e.events.push(ContractEvent::ContributionMade { campaign_id, contributor, amount }),
        ..e
    }
}

// ── withdraw_funds ───────────────────────────────────────────────────────

pub open spec fn withdraw_funds_result(e: EnvView, campaign_id: u32) -> Result<(), Error> {
    if !e.storage.campaigns.contains_key(campaign_id) {
        Err(Error::CampaignNotFound)
    } else {
        let c = e.storage.campaigns[campaign_id];
        if c.is_cancelled {
            Err(Error::CampaignNotActive)
        } else if c.funds_withdrawn {
            Err(Error::FundsAlreadyWithdrawn)
        } else if c.amount_raised == 0 {
            Err(Error::NoFundsToWithdraw)
        } else if c.amount_raised < c.funding_goal {
            if e.timestamp <= c.deadline {
                Err(Error::FundingGoalNotReached)
            } else {
                Err(Error::CampaignNotActive)
            }
        } else {
            Ok(())
        }
    }
}

/// The platform's part of a successful withdrawal.
pub open spec fn withdrawal_fee(e: EnvView, campaign_id: u32) -> int {
    spec_fee_amount(e.storage.campaigns[campaign_id].amount_raised as int, e.storage.platform_fee_value() as int)
}

/// The creator's part of a successful withdrawal.
pub open spec fn withdrawal_creator_amount(e: EnvView, campaign_id: u32) -> int {
    e.storage.campaigns[campaign_id].amount_raised - withdrawal_fee(e, campaign_id)
}

/// The arithmetic of a successful withdrawal stays within machine integers.
pub open spec fn withdraw_funds_fits(e: EnvView, campaign_id: u32) -> bool {
    &&& i128::MIN <= e.storage.campaigns[campaign_id].amount_raised * e.storage.platform_fee_value() <= i128::MAX
    &&& i128::MIN <= withdrawal_creator_amount(e, campaign_id) <= i128::MAX
}

pub open spec fn withdraw_funds_post(e: EnvView, campaign_id: u32) -> EnvView {
    let c = e.storage.campaigns[campaign_id];
    let creator_amount = withdrawal_creator_amount(e, campaign_id) as i128;
    EnvView {
        storage: StoreView {
            campaigns: e.storage.campaigns.insert(campaign_id, Campaign { funds_withdrawn: true, is_active: false, ..c }),
            ..e.storage
        },
        transfers: e.transfers
            .push(Transfer { from: Party::Contract, to: Party::Admin, amount: withdrawal_fee(e, campaign_id) as i128 })
            .push(Transfer { from: Party::Contract, to: Party::Account(c.creator), amount: creator_amount }),
        events: e.events.push(ContractEvent::Withdrawal { campaign_id, creator: c.creator, creator_amount }),
        ..e
    }
}

// ── cancel_campaign ──────────────────────────────────────────────────────

pub open spec fn cancel_campaign_result(e: EnvView, campaign_id: u32) -> Result<(), Error> {
    if !e.storage.campaigns.contains_key(campaign_id) {
        Err(Error::CampaignNotFound)
    } else if e.storage.campaigns[campaign_id].funds_withdrawn {
        Err(Error::ValidationFailed)
    } else {
        Ok(())
    }
}

pub open spec fn cancel_campaign_post(e: EnvView, campaign_id: u32) -> EnvView {
    let c = e.storage.campaigns[campaign_id];
    EnvView {
        storage: StoreView {
            campaigns: e.storage.campaigns.insert(campaign_id, Campaign { is_cancelled: true, is_active: false, ..c }),
            ..e.storage
        },
        events: e.events.push(ContractEvent::CampaignCancelled { campaign_id }),
        ..e
    }
}

// ── update_campaign ──────────────────────────────────────────────────────

pub open spec fn update_campaign_result(e: EnvView, campaign_id: u32, title: String, description: String) -> Result<(), Error> {
    if !e.storage.campaigns.contains_key(campaign_id) {
        Err(Error::CampaignNotFound)
    } else {
        let c = e.storage.campaigns[campaign_id];
        if c.amount_raised > 0 {
            Err(Error::ValidationFailed)
        } else if c.is_cancelled || !c.is_active {
            Err(Error::CampaignNotActive)
        } else if !valid_text(title, MAX_TITLE_LEN as nat) {
            Err(Error::ValidationFailed)
        } else if !valid_text(description, MAX_DESCRIPTION_LEN as nat) {
            Err(Error::ValidationFailed)
        } else {
            Ok(())
        }
    }
}

pub open spec fn update_campaign_post(e: EnvView, campaign_id: u32, title: String, description: String) -> EnvView {
    let c = e.storage.campaigns[campaign_id];
    EnvView {
        storage: StoreView {
            campaigns: e.storage.campaigns.insert(campaign_id, Campaign { title, description, ..c }),
            ..e.storage
        },
        events: e.events.push(ContractEvent::CampaignUpdated { campaign_id, title }),
        ..e
    }
}

// ── update_campaign_description ──────────────────────────────────────────

pub open spec fn update_campaign_description_result(e: EnvView, campaign_id: u32, description: String) -> Result<(), Error> {
    if !e.storage.campaigns.contains_key(campaign_id) {
        Err(Error::CampaignNotFound)
    } else {
        let c = e.storage.campaigns[campaign_id];
        if c.is_cancelled || !c.is_active {
            Err(Error::CampaignNotActive)
        } else if !valid_text(description, MAX_DESCRIPTION_LEN as nat) {
            Err(Error::ValidationFailed)
        } else {
            Ok(())
        }
    }
}

pub open spec fn update_campaign_description_post(e: EnvView, campaign_id: u32, description: String) -> EnvView {
    let c = e.storage.campaigns[campaign_id];
    EnvView {
        storage: StoreView {
            campaigns: e.storage.campaigns.insert(campaign_id, Campaign { description, ..c }),
            ..e.storage
        },
        events: e.events.push(ContractEvent::CampaignDescriptionUpdated { campaign_id }),
        ..e
    }
}

// ── claim_refund ─────────────────────────────────────────────────────────

/// A campaign whose contributors may take their money back: cancelled, or
/// past its deadline short of its goal.
pub open spec fn refundable(c: Campaign, now: u64) -> bool {
    c.is_cancelled || (now > c.deadline && c.amount_raised < c.funding_goal)
}

pub open spec fn claim_refund_result(e: EnvView, campaign_id: u32, contributor: String) -> Result<(), Error> {
    if !e.storage.campaigns.contains_key(campaign_id) {
        Err(Error::CampaignNotFound)
    } else if !refundable(e.storage.campaigns[campaign_id], e.timestamp) {
        Err(Error::ValidationFailed)
    } else if e.storage.contribution(campaign_id, contributor@) == 0 {
        Err(Error::NoFundsToWithdraw)
    } else {
        Ok(())
    }
}

pub open spec fn claim_refund_post(e: EnvView, campaign_id: u32, contributor: String) -> EnvView {
    let amount = e.storage.contribution(campaign_id, contributor@);
    EnvView {
        storage: StoreView {
            contributions: e.storage.contributions.insert((campaign_id, contributor@), 0),
            ..e.storage
        },
        transfers: e.transfers.push(Transfer { from: Party::Contract, to: Party::Account(contributor), amount }),
        events: e.events.push(ContractEvent::RefundClaimed { campaign_id, contributor, amount }),
        ..e
    }
}

// ── deposit_revenue ──────────────────────────────────────────────────────

pub open spec fn deposit_revenue_result(e: EnvView, campaign_id: u32, amount: i128) -> Result<(), Error> {
    if !e.storage.campaigns.contains_key(campaign_id) {
        Err(Error::CampaignNotFound)
    } else if amount <= 0 {
        Err(Error::ValidationFailed)
    } else if !e.storage.campaigns[campaign_id].has_revenue_sharing {
        Err(Error::ValidationFailed)
    } else {
        Ok(())
    }
}

/// The arithmetic of a successful deposit stays within machine integers.
pub open spec fn deposit_revenue_fits(e: EnvView, campaign_id: u32, amount: i128) -> bool {
    e.storage.pool(campaign_id) + amount <= i128::MAX
}

pub open spec fn deposit_revenue_post(e: EnvView, campaign_id: u32, amount: i128) -> EnvView {
    let c = e.storage.campaigns[campaign_id];
    EnvView {
        storage: StoreView {
            revenue_pool: e.storage.revenue_pool.insert(campaign_id, (e.storage.pool(campaign_id) + amount) as i128),
            ..e.storage
        },
        transfers: e.transfers.push(Transfer { from: Party::Account(c.creator), to: Party::Contract, amount }),
        events: e.events.push(ContractEvent::RevenueDeposited { campaign_id, amount }),
        ..e
    }
}

// ── claim_revenue ────────────────────────────────────────────────────────

/// The contributors' pool of a campaign's revenue.
pub open spec fn campaign_contributor_pool(e: EnvView, campaign_id: u32) -> int {
    spec_contributor_pool(
        e.storage.pool(campaign_id) as int,
        e.storage.campaigns[campaign_id].revenue_share_percentage as int,
    )
}

/// Everything a contributor is due from a campaign's revenue so far.
pub open spec fn revenue_due(e: EnvView, campaign_id: u32, contributor: Seq<char>) -> int {
    spec_contributor_due(
        e.storage.contribution(campaign_id, contributor) as int,
        campaign_contributor_pool(e, campaign_id),
        e.storage.campaigns[campaign_id].amount_raised as int,
    )
}

/// What a contributor may claim now: what they are due less what they claimed.
pub open spec fn revenue_claimable(e: EnvView, campaign_id: u32, contributor: Seq<char>) -> int {
    revenue_due(e, campaign_id, contributor) - e.storage.claimed(campaign_id, contributor)
}

/// A claim that passes the campaign and contribution checks and goes on to compute a share.
pub open spec fn claim_revenue_computes(e: EnvView, campaign_id: u32, contributor: String) -> bool {
    &&& e.storage.campaigns.contains_key(campaign_id)
    &&& e.storage.campaigns[campaign_id].has_revenue_sharing
    &&& e.storage.contribution(campaign_id, contributor@) != 0
}

/// The arithmetic of a claim stays within machine integers and divides by a non-zero amount.
pub open spec fn claim_revenue_fits(e: EnvView, campaign_id: u32, contributor: String) -> bool {
    let c = e.storage.campaigns[campaign_id];
    let product = e.storage.contribution(campaign_id, contributor@) * campaign_contributor_pool(e, campaign_id);
    &&& i128::MIN <= e.storage.pool(campaign_id) * c.revenue_share_percentage <= i128::MAX
    &&& i128::MIN <= product <= i128::MAX
    &&& c.amount_raised != 0
    &&& !(product == i128::MIN && c.amount_raised == -1)
    &&& i128::MIN <= revenue_claimable(e, campaign_id, contributor@) <= i128::MAX
}

pub open spec fn claim_revenue_result(e: EnvView, campaign_id: u32, contributor: String) -> Result<(), Error> {
    if !e.storage.campaigns.contains_key(campaign_id) {
        Err(Error::CampaignNotFound)
    } else if !e.storage.campaigns[campaign_id].has_revenue_sharing {
        Err(Error::ValidationFailed)
    } else if e.storage.contribution(campaign_id, contributor@) == 0 {
        Err(Error::ValidationFailed)
    } else if revenue_claimable(e, campaign_id, contributor@) <= 0 {
        Err(Error::NoFundsToWithdraw)
    } else {
        Ok(())
    }
}

pub open spec fn claim_revenue_post(e: EnvView, campaign_id: u32, contributor: String) -> EnvView {
    let claimable = revenue_claimable(e, campaign_id, contributor@) as i128;
    EnvView {
        storage: StoreView {
            revenue_claimed: e.storage.revenue_claimed.insert(
                (campaign_id, contributor@),
                revenue_due(e, campaign_id, contributor@) as i128,
            ),
            ..e.storage
        },
        transfers: e.transfers.push(Transfer { from: Party::Contract, to: Party::Account(contributor), amount: claimable }),
        events: e.events.push(ContractEvent::RevenueClaimed { campaign_id, contributor, amount: claimable }),
        ..e
    }
}

// ── claim_creator_revenue ────────────────────────────────────────────────

/// The creator's share of a campaign's revenue so far.
pub open spec fn creator_share_total(e: EnvView, campaign_id: u32) -> int {
    e.storage.pool(campaign_id) - campaign_contributor_pool(e, campaign_id)
}

/// What the creator may claim now: their share less what they claimed.
pub open spec fn creator_claimable(e: EnvView, campaign_id: u32) -> int {
    creator_share_total(e, campaign_id) - e.storage.creator_claimed(campaign_id)
}

/// A claim that passes the campaign checks and goes on to compute a share.
pub open spec fn claim_creator_revenue_computes(e: EnvView, campaign_id: u32) -> bool {
    &&& e.storage.campaigns.contains_key(campaign_id)
    &&& e.storage.campaigns[campaign_id].has_revenue_sharing
}

/// The arithmetic of the creator's claim stays within machine integers.
pub open spec fn claim_creator_revenue_fits(e: EnvView, campaign_id: u32) -> bool {
    let c = e.storage.campaigns[campaign_id];
    &&& i128::MIN <= e.storage.pool(campaign_id) * c.revenue_share_percentage <= i128::MAX
    &&& i128::MIN <= creator_share_total(e, campaign_id) <= i128::MAX
    &&& i128::MIN <= creator_claimable(e, campaign_id) <= i128::MAX
}

pub open spec fn claim_creator_revenue_result(e: EnvView, campaign_id: u32) -> Result<(), Error> {
    if !e.storage.campaigns.contains_key(campaign_id) {
        Err(Error::CampaignNotFound)
    } else if !e.storage.campaigns[campaign_id].has_revenue_sharing {
        Err(Error::ValidationFailed)
    } else if creator_claimable(e, campaign_id) <= 0 {
        Err(Error::NoFundsToWithdraw)
    } else {
        Ok(())
    }
}

pub open spec fn claim_creator_revenue_post(e: EnvView, campaign_id: u32) -> EnvView {
    let c = e.storage.campaigns[campaign_id];
    let claimable = creator_claimable(e, campaign_id) as i128;
    EnvView {
        storage: StoreView {
            creator_revenue_claimed: e.storage.creator_revenue_claimed.insert(
                campaign_id,
                creator_share_total(e, campaign_id) as i128,
            ),
            ..e.storage
        },
        transfers: e.transfers.push(Transfer { from: Party::Contract, to: Party::Account(c.creator), amount: claimable }),
        events: e.events.push(ContractEvent::CreatorRevenueClaimed { campaign_id, creator: c.creator, amount: claimable }),
        ..e
    }
}

// ── update_platform_fee / update_admin ───────────────────────────────────

pub open spec fn update_platform_fee_post(e: EnvView, new_fee: u32) -> EnvView {
    EnvView {
        storage: StoreView { platform_fee: Some(capped_fee(new_fee)), ..e.storage },
        events: e.events.push(ContractEvent::FeeUpdated { old_fee: e.storage.platform_fee_value(), new_fee: capped_fee(new_fee) }),
        ..e
    }
}

pub open spec fn update_admin_result(e: EnvView, admin: String) -> Result<(), Error> {
    if admin@ != e.storage.admin->0@ {
        Err(Error::NotAuthorized)
    } else {
        Ok(())
    }
}

pub open spec fn update_admin_post(e: EnvView, new_admin: String) -> EnvView {
    EnvView {
        storage: StoreView { admin: Some(new_admin), ..e.storage },
        events: e.events.push(ContractEvent::AdminUpdated { old_admin: e.storage.admin->0, new_admin }),
        ..e
    }
}

// ── authorization ────────────────────────────────────────────────────────

/// The account whose authorization `init` requires: the new admin, once the
/// contract is found uninitialized.
pub open spec fn init_auth(e: EnvView, admin: String) -> Option<String> {
    if e.storage.admin is None { Some(admin) } else { None }
}

/// The account whose authorization an operation on a stored campaign
/// requires: the campaign's creator, once the campaign is found.
pub open spec fn creator_auth(e: EnvView, campaign_id: u32) -> Option<String> {
    if e.storage.campaigns.contains_key(campaign_id) {
        Some(e.storage.campaigns[campaign_id].creator)
    } else {
        None
    }
}

/// The account whose authorization an admin operation requires: the stored admin.
pub open spec fn admin_auth(e: EnvView) -> Option<String> {
    Some(e.storage.admin->0)
}

/// The main contract: a launchpad where communities fund and validate causes.
///
/// Each operation runs in an [`Env`] and records in its `auths`, in order,
/// each account whose authorization it requires, also when it then fails; a
/// refused authorization aborts the call with all its effects.
pub struct ProofOfHeart;

impl ProofOfHeart {
    /// Initializes the contract with its admin, the accepted token, and the
    /// platform fee in basis points (capped at 1000 = 10%).
    ///
    /// Authorization: `admin`.
    pub fn init(env: &mut Env, admin: String, token: String, platform_fee: u32) -> (r: Result<(), Error>)
        ensures
            r == init_result(old(env)@),
            final(env)@ == authorized((if r is Ok { init_post(old(env)@, admin, token, platform_fee) } else { old(env)@ }), init_auth(old(env)@, admin)),
    {
        if env.storage.has_admin() {
            return Err(Error::AlreadyInitialized);
        }
        env.require_auth(admin.clone());
        env.storage.set_admin(admin.clone());
        env.storage.set_token(token.clone());
        let valid_fee = if platform_fee > MAX_PLATFORM_FEE { MAX_PLATFORM_FEE } else { platform_fee };
        env.storage.set_platform_fee(valid_fee);
        env.storage.set_campaign_count(0);
        env.storage.set_version(CONTRACT_VERSION);
        env.storage.set_min_votes_quorum(DEFAULT_MIN_VOTES_QUORUM);
        env.storage.set_approval_threshold_bps(DEFAULT_APPROVAL_THRESHOLD_BPS);
        env.publish(ContractEvent::Initialized { admin, token, platform_fee: valid_fee });
        Ok(())
    }

    /// Creates a new campaign and returns its id, one more than the number of
    /// campaigns created before it.
    ///
    /// The title must be 1–100 bytes, the description 1–1000 bytes, the
    /// duration 1–365 days; only `EducationalStartup` campaigns may share
    /// revenue, at 1–5000 basis points.
    ///
    /// Authorization: `creator`.
    pub fn create_campaign(
        env: &mut Env,
        creator: String,
        title: String,
        description: String,
        funding_goal: i128,
        duration_days: u64,
        category: Category,
        has_revenue_sharing: bool,
        revenue_share_percentage: u32,
    ) -> (r: Result<u32, Error>)
        requires
            create_campaign_result(old(env)@, title, description, funding_goal, duration_days, category,
                has_revenue_sharing, revenue_share_percentage) is Ok ==> create_campaign_fits(old(env)@, duration_days),
        ensures
            r == create_campaign_result(old(env)@, title, description, funding_goal, duration_days, category,
                has_revenue_sharing, revenue_share_percentage),
            final(env)@ == authorized((if r is Ok {
                create_campaign_post(old(env)@, creator, title, description, funding_goal, duration_days, category,
                    has_revenue_sharing, revenue_share_percentage)
            } else {
                old(env)@
            }), Some(creator)),
    {
        env.require_auth(creator.clone());
        if funding_goal <= 0 {
            return Err(Error::FundingGoalMustBePositive);
        }
        if !(1 <= duration_days && duration_days <= MAX_DURATION_DAYS) {
            return Err(Error::InvalidDuration);
        }
        if !text_fits(&title, MAX_TITLE_LEN) {
            return Err(Error::ValidationFailed);
        }
        if !text_fits(&description, MAX_DESCRIPTION_LEN) {
            return Err(Error::ValidationFailed);
        }
        if category != Category::EducationalStartup && has_revenue_sharing {
            return Err(Error::RevenueShareOnlyForStartup);
        }
        if has_revenue_sharing && (revenue_share_percentage == 0 || revenue_share_percentage > MAX_REVENUE_SHARE_BPS) {
            return Err(Error::InvalidRevenueShare);
        }
        let count = env.storage.get_campaign_count() + 1;
        let deadline = env.timestamp + duration_days * SECONDS_PER_DAY;
        let campaign = Campaign {
            id: count,
            creator: creator.clone(),
            title: title.clone(),
            description,
            funding_goal,
            deadline,
            amount_raised: 0,
            is_active: true,
            funds_withdrawn: false,
            is_cancelled: false,
            is_verified: false,
            category,
            has_revenue_sharing,
            revenue_share_percentage,
        };
        env.storage.set_campaign(count, campaign);
        env.storage.set_campaign_count(count);
        env.storage.set_revenue_pool(count, 0);
        env.publish(ContractEvent::CampaignCreated { campaign_id: count, creator, title });
        Ok(count)
    }

    /// Contributes `amount` tokens to an active campaign before its deadline.
    ///
    /// The creator cannot contribute to their own campaign.
    ///
    /// Authorization: `contributor`.
    pub fn contribute(env: &mut Env, campaign_id: u32, contributor: String, amount: i128) -> (r: Result<(), Error>)
        requires
            contribute_result(old(env)@, campaign_id, contributor, amount) is Ok
                ==> contribute_fits(old(env)@, campaign_id, contributor, amount),
        ensures
            r == contribute_result(old(env)@, campaign_id, contributor, amount),
            final(env)@ == authorized((if r is Ok { contribute_post(old(env)@, campaign_id, contributor, amount) } else { old(env)@ }), Some(contributor)),
    {
        env.require_auth(contributor.clone());
        if amount <= 0 {
            return Err(Error::ContributionMustBePositive);
        }
        let mut campaign = match env.storage.get_campaign(campaign_id) {
            Some(c) => c,
            None => return Err(Error::CampaignNotFound),
        };
        if !campaign.is_active || campaign.is_cancelled {
            return Err(Error::CampaignNotActive);
        }
        if contributor == campaign.creator {
            return Err(Error::NotAuthorized);
        }
        if env.timestamp > campaign.deadline {
            return Err(Error::DeadlinePassed);
        }
        env.transfer(Party::Account(contributor.clone()), Party::Contract, amount);
        campaign.amount_raised = campaign.amount_raised + amount;
        env.storage.set_campaign(campaign_id, campaign);
        let current = env.storage.get_contribution(campaign_id, &contributor);
        env.storage.set_contribution(campaign_id, contributor.clone(), current + amount);
        env.publish(ContractEvent::ContributionMade { campaign_id, contributor, amount });
        Ok(())
    }

    /// Withdraws a campaign's funds once its goal is reached: the platform fee
    /// goes to the admin and the rest to the creator.
    ///
    /// Authorization: the campaign's creator.
    pub fn withdraw_funds(env: &mut Env, campaign_id: u32) -> (r: Result<(), Error>)
        requires
            withdraw_funds_result(old(env)@, campaign_id) is Ok ==> withdraw_funds_fits(old(env)@, campaign_id),
        ensures
            r == withdraw_funds_result(old(env)@, campaign_id),
            final(env)@ == authorized((if r is Ok { withdraw_funds_post(old(env)@, campaign_id) } else { old(env)@ }), creator_auth(old(env)@, campaign_id)),
    {
        let mut campaign = match env.storage.get_campaign(campaign_id) {
            Some(c) => c,
            None => return Err(Error::CampaignNotFound),
        };
        env.require_auth(campaign.creator.clone());
        if campaign.is_cancelled {
            return Err(Error::CampaignNotActive);
        }
        if campaign.funds_withdrawn {
            return Err(Error::FundsAlreadyWithdrawn);
        }
        if campaign.amount_raised == 0 {
            return Err(Error::NoFundsToWithdraw);
        }
        let time_remaining = env.timestamp <= campaign.deadline;
        if campaign.amount_raised < campaign.funding_goal {
            if time_remaining {
                return Err(Error::FundingGoalNotReached);
            } else {
                return Err(Error::CampaignNotActive);
            }
        }
        let platform_fee = env.storage.get_platform_fee();
        let fee = fee_amount(campaign.amount_raised, platform_fee);
        let creator_amount = campaign.amount_raised - fee;
        campaign.funds_withdrawn = true;
        campaign.is_active = false;
        let creator = campaign.creator.clone();
        env.storage.set_campaign(campaign_id, campaign);
        env.transfer(Party::Contract, Party::Admin, fee);
        env.transfer(Party::Contract, Party::Account(creator.clone()), creator_amount);
        env.publish(ContractEvent::Withdrawal { campaign_id, creator, creator_amount });
        Ok(())
    }

    /// Cancels a campaign, which enables refunds. Fails once funds were withdrawn.
    ///
    /// Authorization: the campaign's creator.
    pub fn cancel_campaign(env: &mut Env, campaign_id: u32) -> (r: Result<(), Error>)
        ensures
            r == cancel_campaign_result(old(env)@, campaign_id),
            final(env)@ == authorized((if r is Ok { cancel_campaign_post(old(env)@, campaign_id) } else { old(env)@ }), creator_auth(old(env)@, campaign_id)),
    {
        let mut campaign = match env.storage.get_campaign(campaign_id) {
            Some(c) => c,
            None => return Err(Error::CampaignNotFound),
        };
        env.require_auth(campaign.creator.clone());
        if campaign.funds_withdrawn {
            return Err(Error::ValidationFailed);
        }
        campaign.is_cancelled = true;
        campaign.is_active = false;
        env.storage.set_campaign(campaign_id, campaign);
        env.publish(ContractEvent::CampaignCancelled { campaign_id });
        Ok(())
    }

    /// Updates the title and description of an active campaign that has
    /// raised nothing yet.
    ///
    /// Authorization: the campaign's creator.
    pub fn update_campaign(env: &mut Env, campaign_id: u32, title: String, description: String) -> (r: Result<(), Error>)
        ensures
            r == update_campaign_result(old(env)@, campaign_id, title, description),
            final(env)@ == authorized((if r is Ok { update_campaign_post(old(env)@, campaign_id, title, description) } else { old(env)@ }), creator_auth(old(env)@, campaign_id)),
    {
        let mut campaign = match env.storage.get_campaign(campaign_id) {
            Some(c) => c,
            None => return Err(Error::CampaignNotFound),
        };
        env.require_auth(campaign.creator.clone());
        if campaign.amount_raised > 0 {
            return Err(Error::ValidationFailed);
        }
        if campaign.is_cancelled || !campaign.is_active {
            return Err(Error::CampaignNotActive);
        }
        if !text_fits(&title, MAX_TITLE_LEN) {
            return Err(Error::ValidationFailed);
        }
        if !text_fits(&description, MAX_DESCRIPTION_LEN) {
            return Err(Error::ValidationFailed);
        }
        campaign.title = title.clone();
        campaign.description = description;
        env.storage.set_campaign(campaign_id, campaign);
        env.publish(ContractEvent::CampaignUpdated { campaign_id, title });
        Ok(())
    }

    /// Updates the description of an active campaign, also after
    /// contributions were made.
    ///
    /// Authorization: the campaign's creator.
    pub fn update_campaign_description(env: &mut Env, campaign_id: u32, description: String) -> (r: Result<(), Error>)
        ensures
            r == update_campaign_description_result(old(env)@, campaign_id, description),
            final(env)@ == authorized((if r is Ok {
                update_campaign_description_post(old(env)@, campaign_id, description)
            } else {
                old(env)@
            }), creator_auth(old(env)@, campaign_id)),
    {
        let mut campaign = match env.storage.get_campaign(campaign_id) {
            Some(c) => c,
            None => return Err(Error::CampaignNotFound),
        };
        env.require_auth(campaign.creator.clone());
        if campaign.is_cancelled || !campaign.is_active {
            return Err(Error::CampaignNotActive);
        }
        if !text_fits(&description, MAX_DESCRIPTION_LEN) {
            return Err(Error::ValidationFailed);
        }
        campaign.description = description;
        env.storage.set_campaign(campaign_id, campaign);
        env.publish(ContractEvent::CampaignDescriptionUpdated { campaign_id });
        Ok(())
    }

    /// Pays a contributor back their contribution to a cancelled campaign, or
    /// to one past its deadline short of its goal.
    ///
    /// Authorization: `contributor`.
    pub fn claim_refund(env: &mut Env, campaign_id: u32, contributor: String) -> (r: Result<(), Error>)
        ensures
            r == claim_refund_result(old(env)@, campaign_id, contributor),
            final(env)@ == authorized((if r is Ok { claim_refund_post(old(env)@, campaign_id, contributor) } else { old(env)@ }), Some(contributor)),
    {
        env.require_auth(contributor.clone());
        let campaign = match env.storage.get_campaign(campaign_id) {
            Some(c) => c,
            None => return Err(Error::CampaignNotFound),
        };
        let failed_due_to_goal = env.timestamp > campaign.deadline && campaign.amount_raised < campaign.funding_goal;
        if !(campaign.is_cancelled || failed_due_to_goal) {
            return Err(Error::ValidationFailed);
        }
        let amount = env.storage.get_contribution(campaign_id, &contributor);
        if amount == 0 {
            return Err(Error::NoFundsToWithdraw);
        }
        env.storage.set_contribution(campaign_id, contributor.clone(), 0);
        env.transfer(Party::Contract, Party::Account(contributor.clone()), amount);
        env.publish(ContractEvent::RefundClaimed { campaign_id, contributor, amount });
        Ok(())
    }

    /// Deposits revenue into the pool of a revenue-sharing campaign.
    ///
    /// Authorization: the campaign's creator.
    pub fn deposit_revenue(env: &mut Env, campaign_id: u32, amount: i128) -> (r: Result<(), Error>)
        requires
            deposit_revenue_result(old(env)@, campaign_id, amount) is Ok
                ==> deposit_revenue_fits(old(env)@, campaign_id, amount),
        ensures
            r == deposit_revenue_result(old(env)@, campaign_id, amount),
            final(env)@ == authorized((if r is Ok { deposit_revenue_post(old(env)@, campaign_id, amount) } else { old(env)@ }), creator_auth(old(env)@, campaign_id)),
    {
        let campaign = match env.storage.get_campaign(campaign_id) {
            Some(c) => c,
            None => return Err(Error::CampaignNotFound),
        };
        env.require_auth(campaign.creator.clone());
        if amount <= 0 {
            return Err(Error::ValidationFailed);
        }
        if !campaign.has_revenue_sharing {
            return Err(Error::ValidationFailed);
        }
        env.transfer(Party::Account(campaign.creator), Party::Contract, amount);
        let current_pool = env.storage.get_revenue_pool(campaign_id);
        env.storage.set_revenue_pool(campaign_id, current_pool + amount);
        env.publish(ContractEvent::RevenueDeposited { campaign_id, amount });
        Ok(())
    }

    /// Pays a contributor what they are due from a campaign's revenue pool,
    /// in proportion to their contribution, less what they claimed before.
    pub fn claim_revenue(env: &mut Env, campaign_id: u32, contributor: String) -> (r: Result<(), Error>)
        requires
            claim_revenue_computes(old(env)@, campaign_id, contributor)
                ==> claim_revenue_fits(old(env)@, campaign_id, contributor),
        ensures
            r == claim_revenue_result(old(env)@, campaign_id, contributor),
            final(env)@ == (if r is Ok { claim_revenue_post(old(env)@, campaign_id, contributor) } else { old(env)@ }),
    {
        let campaign = match env.storage.get_campaign(campaign_id) {
            Some(c) => c,
            None => return Err(Error::CampaignNotFound),
        };
        if !campaign.has_revenue_sharing {
            return Err(Error::ValidationFailed);
        }
        let contribution = env.storage.get_contribution(campaign_id, &contributor);
        if contribution == 0 {
            return Err(Error::ValidationFailed);
        }
        let total_pool = env.storage.get_revenue_pool(campaign_id);
        let pool = contributor_pool(total_pool, campaign.revenue_share_percentage as i128);
        let total_due = contributor_due(contribution, pool, campaign.amount_raised);
        let already_claimed = env.storage.get_revenue_claimed(campaign_id, &contributor);
        let claimable = total_due - already_claimed;
        if claimable <= 0 {
            return Err(Error::NoFundsToWithdraw);
        }
        env.storage.set_revenue_claimed(campaign_id, contributor.clone(), already_claimed + claimable);
        env.transfer(Party::Contract, Party::Account(contributor.clone()), claimable);
        env.publish(ContractEvent::RevenueClaimed { campaign_id, contributor, amount: claimable });
        Ok(())
    }

    /// Pays the creator their retained share of a campaign's revenue pool,
    /// less what they claimed before.
    ///
    /// Authorization: the campaign's creator.
    pub fn claim_creator_revenue(env: &mut Env, campaign_id: u32) -> (r: Result<(), Error>)
        requires
            claim_creator_revenue_computes(old(env)@, campaign_id) ==> claim_creator_revenue_fits(old(env)@, campaign_id),
        ensures
            r == claim_creator_revenue_result(old(env)@, campaign_id),
            final(env)@ == authorized((if r is Ok { claim_creator_revenue_post(old(env)@, campaign_id) } else { old(env)@ }), creator_auth(old(env)@, campaign_id)),
    {
        let campaign = match env.storage.get_campaign(campaign_id) {
            Some(c) => c,
            None => return Err(Error::CampaignNotFound),
        };
        env.require_auth(campaign.creator.clone());
        if !campaign.has_revenue_sharing {
            return Err(Error::ValidationFailed);
        }
        let total_pool = env.storage.get_revenue_pool(campaign_id);
        let pool = contributor_pool(total_pool, campaign.revenue_share_percentage as i128);
        let creator_share = total_pool - pool;
        let already_claimed = env.storage.get_creator_revenue_claimed(campaign_id);
        let claimable = creator_share - already_claimed;
        if claimable <= 0 {
            return Err(Error::NoFundsToWithdraw);
        }
        env.storage.set_creator_revenue_claimed(campaign_id, already_claimed + claimable);
        env.transfer(Party::Contract, Party::Account(campaign.creator.clone()), claimable);
        env.publish(ContractEvent::CreatorRevenueClaimed { campaign_id, creator: campaign.creator, amount: claimable });
        Ok(())
    }

    /// Updates the global platform fee, capped at 10%.
    ///
    /// Authorization: the stored admin.
    pub fn update_platform_fee(env: &mut Env, new_fee: u32) -> (r: Result<(), Error>)
        requires
            old(env)@.storage.admin is Some,
        ensures
            r is Ok,
            final(env)@ == authorized(update_platform_fee_post(old(env)@, new_fee), admin_auth(old(env)@)),
    {
        let admin = env.storage.get_admin();
        env.require_auth(admin);
        let valid_fee = if new_fee > MAX_PLATFORM_FEE { MAX_PLATFORM_FEE } else { new_fee };
        let old_fee = env.storage.get_platform_fee();
        env.storage.set_platform_fee(valid_fee);
        env.publish(ContractEvent::FeeUpdated { old_fee, new_fee: valid_fee });
        Ok(())
    }

    /// Transfers admin privileges to `new_admin`; `admin` must be the stored admin.
    ///
    /// Authorization: `admin`.
    pub fn update_admin(env: &mut Env, admin: String, new_admin: String) -> (r: Result<(), Error>)
        requires
            old(env)@.storage.admin is Some,
        ensures
            r == update_admin_result(old(env)@, admin),
            final(env)@ == authorized((if r is Ok { update_admin_post(old(env)@, new_admin) } else { old(env)@ }), Some(admin)),
    {
        env.require_auth(admin.clone());
        let current_admin = env.storage.get_admin();
        if admin != current_admin {
            return Err(Error::NotAuthorized);
        }
        env.storage.set_admin(new_admin.clone());
        env.publish(ContractEvent::AdminUpdated { old_admin: current_admin, new_admin });
        Ok(())
    }

    /// Sets the community voting parameters.
    ///
    /// Authorization: `admin`, which must be the stored admin.
    pub fn set_voting_params(env: &mut Env, admin: String, min_votes_quorum: u32, approval_threshold_bps: u32) -> (r: Result<(), Error>)
        requires
            old(env)@.storage.admin is Some,
        ensures
            r == set_params_result(old(env)@, admin, min_votes_quorum, approval_threshold_bps),
            final(env)@ == authorized((if r is Ok {
                set_params_post(old(env)@, min_votes_quorum, approval_threshold_bps)
            } else {
                old(env)@
            }), Some(admin)),
    {
        set_params(env, admin, min_votes_quorum, approval_threshold_bps)
    }

    /// Casts a vote on a campaign (approve or reject) towards community verification.
    ///
    /// Authorization: `voter`.
    pub fn vote_on_campaign(env: &mut Env, campaign_id: u32, voter: String, approve: bool) -> (r: Result<(), Error>)
        requires
            vote_target_result(old(env)@, campaign_id) is Ok ==> old(env)@.storage.token is Some,
            cast_vote_result(old(env)@, campaign_id, voter) is Ok ==> cast_vote_fits(old(env)@, campaign_id, approve),
        ensures
            r == cast_vote_result(old(env)@, campaign_id, voter),
            final(env)@ == authorized((if r is Ok { cast_vote_post(old(env)@, campaign_id, voter, approve) } else { old(env)@ }), Some(voter)),
    {
        cast_vote(env, campaign_id, voter, approve)
    }

    /// Directly verifies a campaign.
    ///
    /// Authorization: the stored admin.
    pub fn verify_campaign(env: &mut Env, campaign_id: u32) -> (r: Result<(), Error>)
        requires
            old(env)@.storage.admin is Some,
        ensures
            r == admin_verify_result(old(env)@, campaign_id),
            final(env)@ == authorized((if r is Ok { admin_verify_post(old(env)@, campaign_id) } else { old(env)@ }), admin_auth(old(env)@)),
    {
        admin_verify(env, campaign_id)
    }

    /// Marks a campaign verified if its votes meet the quorum and threshold.
    pub fn verify_campaign_with_votes(env: &mut Env, campaign_id: u32) -> (r: Result<(), Error>)
        requires
            verify_with_votes_fits(old(env)@, campaign_id),
        ensures
            r == verify_with_votes_result(old(env)@, campaign_id),
            final(env)@ == (if r is Ok { verify_with_votes_post(old(env)@, campaign_id) } else { old(env)@ }),
    {
        verify_with_votes(env, campaign_id)
    }

    /// Gets a campaign's current state.
    pub fn get_campaign(env: &Env, campaign_id: u32) -> (r: Result<Campaign, Error>)
        ensures
            r == (match env@.storage.campaigns.get(campaign_id) {
                Some(c) => Ok(c),
                None => Err(Error::CampaignNotFound),
            }),
    {
        match env.storage.get_campaign(campaign_id) {
            Some(c) => Ok(c),
            None => Err(Error::CampaignNotFound),
        }
    }

    /// Returns the total number of campaigns created.
    pub fn get_campaign_count(env: &Env) -> (r: u32)
        ensures
            r == env@.storage.campaign_count_value(),
    {
        env.storage.get_campaign_count()
    }

    /// Gets the contributor's contribution amount for a specific campaign.
    pub fn get_contribution(env: &Env, campaign_id: u32, contributor: String) -> (r: i128)
        ensures
            r == env@.storage.contribution(campaign_id, contributor@),
    {
        env.storage.get_contribution(campaign_id, &contributor)
    }

    /// Gets the total revenue pool for a given campaign.
    pub fn get_revenue_pool(env: &Env, campaign_id: u32) -> (r: i128)
        ensures
            r == env@.storage.pool(campaign_id),
    {
        env.storage.get_revenue_pool(campaign_id)
    }

    /// Gets the total revenue claimed by a specific contributor.
    pub fn get_revenue_claimed(env: &Env, campaign_id: u32, contributor: String) -> (r: i128)
        ensures
            r == env@.storage.claimed(campaign_id, contributor@),
    {
        env.storage.get_revenue_claimed(campaign_id, &contributor)
    }

    /// Returns the stored contract version; 0 for a contract initialized
    /// before versions were tracked.
    pub fn get_version(env: &Env) -> (r: u32)
        ensures
            r == env@.storage.version_value(),
    {
        env.storage.get_version()
    }

    /// Gets the number of recorded approval votes for a campaign.
    pub fn get_approve_votes(env: &Env, campaign_id: u32) -> (r: u32)
        ensures
            r == env@.storage.approvals(campaign_id),
    {
        env.storage.get_approve_votes(campaign_id)
    }

    /// Gets the number of recorded rejection votes for a campaign.
    pub fn get_reject_votes(env: &Env, campaign_id: u32) -> (r: u32)
        ensures
            r == env@.storage.rejections(campaign_id),
    {
        env.storage.get_reject_votes(campaign_id)
    }

    /// Checks if a voter has already voted on a specific campaign.
    pub fn has_voted(env: &Env, campaign_id: u32, voter: String) -> (r: bool)
        ensures
            r == env@.storage.voted(campaign_id, voter@),
    {
        env.storage.get_has_voted(campaign_id, &voter)
    }

    /// Gets the minimum votes needed to reach quorum.
    pub fn get_min_votes_quorum(env: &Env) -> (r: u32)
        ensures
            r == quorum(env@),
    {
        env.storage.get_min_votes_quorum(DEFAULT_MIN_VOTES_QUORUM)
    }

    /// Gets the required approval threshold in basis points.
    pub fn get_approval_threshold_bps(env: &Env) -> (r: u32)
        ensures
            r == threshold(env@),
    {
        env.storage.get_approval_threshold_bps(DEFAULT_APPROVAL_THRESHOLD_BPS)
    }

    /// Returns the current admin address of an initialized contract.
    pub fn get_admin(env: &Env) -> (r: String)
        requires
            env@.storage.admin is Some,
        ensures
            r == env@.storage.admin->0,
    {
        env.storage.get_admin()
    }

    /// Returns the accepted token address of an initialized contract.
    pub fn get_token(env: &Env) -> (r: String)
        requires
            env@.storage.token is Some,
        ensures
            r == env@.storage.token->0,
    {
        env.storage.get_token()
    }

    /// Returns the current platform fee in basis points.
    pub fn get_platform_fee(env: &Env) -> (r: u32)
        ensures
            r == env@.storage.platform_fee_value(),
    {
        env.storage.get_platform_fee()
    }
}

} // verus!
