//! Whether an operation's arguments keep its arithmetic within machine
//! integers.  The deployed contract aborts a call whose arithmetic overflows;
//! the operations require that it does not, and these checks tell a caller
//! beforehand.
use vstd::prelude::*;

use crate::contract::{
    claim_creator_revenue_computes, claim_creator_revenue_fits, claim_revenue_computes, claim_revenue_fits,
    contribute_fits, contribute_result, create_campaign_fits, create_campaign_result, deposit_revenue_fits,
    deposit_revenue_result, text_fits, withdraw_funds_fits, withdraw_funds_result, MAX_DESCRIPTION_LEN,
    MAX_DURATION_DAYS, MAX_REVENUE_SHARE_BPS, MAX_TITLE_LEN, SECONDS_PER_DAY,
};
use crate::env::Env;
use crate::revenue::{trunc_div, BPS_DENOMINATOR};
use crate::types::Category;
use crate::voting::{
    cast_vote_fits, cast_vote_result, check_vote_target, verify_with_votes_fits, vote_target_result,
    DEFAULT_MIN_VOTES_QUORUM,
};

verus! {

/// Whether `create_campaign` may be called with these arguments.
pub fn create_campaign_within_limits(
    env: &Env,
    title: &String,
    description: &String,
    funding_goal: i128,
    duration_days: u64,
    category: Category,
    has_revenue_sharing: bool,
    revenue_share_percentage: u32,
) -> (ok: bool)
    ensures
        ok == (create_campaign_result(env@, *title, *description, funding_goal, duration_days, category,
            has_revenue_sharing, revenue_share_percentage) is Ok ==> create_campaign_fits(env@, duration_days)),
{
    let valid = funding_goal > 0 && 1 <= duration_days && duration_days <= MAX_DURATION_DAYS && text_fits(title, MAX_TITLE_LEN)
        && text_fits(description, MAX_DESCRIPTION_LEN) && !(category != Category::EducationalStartup
        && has_revenue_sharing) && !(has_revenue_sharing && (revenue_share_percentage == 0 || revenue_share_percentage
        > MAX_REVENUE_SHARE_BPS));
    if !valid {
        return true;
    }
    env.storage.get_campaign_count() < u32::MAX && env.timestamp.checked_add(duration_days * SECONDS_PER_DAY).is_some()
}

/// Whether `contribute` may be called with these arguments.
pub fn contribute_within_limits(env: &Env, campaign_id: u32, contributor: &String, amount: i128) -> (ok: bool)
    ensures
        ok == (contribute_result(env@, campaign_id, *contributor, amount) is Ok ==> contribute_fits(
            env@,
            campaign_id,
            *contributor,
            amount,
        )),
{
    if amount <= 0 {
        return true;
    }
    match env.storage.get_campaign(campaign_id) {
        None => true,
        Some(c) => {
            if !c.is_active || c.is_cancelled || *contributor == c.creator || env.timestamp > c.deadline {
                true
            } else {
                c.amount_raised.checked_add(amount).is_some() && env.storage.get_contribution(
                    campaign_id,
                    contributor,
                ).checked_add(amount).is_some()
            }
        },
    }
}

/// Whether `withdraw_funds` may be called for this campaign.
pub fn withdraw_funds_within_limits(env: &Env, campaign_id: u32) -> (ok: bool)
    ensures
        ok == (withdraw_funds_result(env@, campaign_id) is Ok ==> withdraw_funds_fits(env@, campaign_id)),
{
    match env.storage.get_campaign(campaign_id) {
        None => true,
        Some(c) => {
            if c.is_cancelled || c.funds_withdrawn || c.amount_raised == 0 || c.amount_raised < c.funding_goal {
                true
            } else {
                match c.amount_raised.checked_mul(env.storage.get_platform_fee() as i128) {
                    None => false,
                    Some(product) => c.amount_raised.checked_sub(trunc_div(product, BPS_DENOMINATOR)).is_some(),
                }
            }
        },
    }
}

/// Whether `deposit_revenue` may be called with these arguments.
pub fn deposit_revenue_within_limits(env: &Env, campaign_id: u32, amount: i128) -> (ok: bool)
    ensures
        ok == (deposit_revenue_result(env@, campaign_id, amount) is Ok ==> deposit_revenue_fits(
            env@,
            campaign_id,
            amount,
        )),
{
    match env.storage.get_campaign(campaign_id) {
        None => true,
        Some(c) => {
            if amount <= 0 || !c.has_revenue_sharing {
                true
            } else {
                env.storage.get_revenue_pool(campaign_id).checked_add(amount).is_some()
            }
        },
    }
}

/// Whether `claim_revenue` may be called with these arguments.
pub fn claim_revenue_within_limits(env: &Env, campaign_id: u32, contributor: &String) -> (ok: bool)
    ensures
        ok == (claim_revenue_computes(env@, campaign_id, *contributor) ==> claim_revenue_fits(
            env@,
            campaign_id,
            *contributor,
        )),
{
    let c = match env.storage.get_campaign(campaign_id) {
        None => return true,
        Some(c) => c,
    };
    let contribution = env.storage.get_contribution(campaign_id, contributor);
    if !c.has_revenue_sharing || contribution == 0 {
        return true;
    }
    let pool = match env.storage.get_revenue_pool(campaign_id).checked_mul(c.revenue_share_percentage as i128) {
        None => return false,
        Some(product) => trunc_div(product, BPS_DENOMINATOR),
    };
    let product = match contribution.checked_mul(pool) {
        None => return false,
        Some(p) => p,
    };
    if c.amount_raised == 0 || (product == i128::MIN && c.amount_raised == -1) {
        return false;
    }
    let due = trunc_div(product, c.amount_raised);
    due.checked_sub(env.storage.get_revenue_claimed(campaign_id, contributor)).is_some()
}

/// Whether `claim_creator_revenue` may be called for this campaign.
pub fn claim_creator_revenue_within_limits(env: &Env, campaign_id: u32) -> (ok: bool)
    ensures
        ok == (claim_creator_revenue_computes(env@, campaign_id) ==> claim_creator_revenue_fits(env@, campaign_id)),
{
    let c = match env.storage.get_campaign(campaign_id) {
        None => return true,
        Some(c) => c,
    };
    if !c.has_revenue_sharing {
        return true;
    }
    let total_pool = env.storage.get_revenue_pool(campaign_id);
    let pool = match total_pool.checked_mul(c.revenue_share_percentage as i128) {
        None => return false,
        Some(product) => trunc_div(product, BPS_DENOMINATOR),
    };
    match total_pool.checked_sub(pool) {
        None => false,
        Some(share) => share.checked_sub(env.storage.get_creator_revenue_claimed(campaign_id)).is_some(),
    }
}

/// Whether `vote_on_campaign` may be called with these arguments: a vote
/// that gets past the campaign checks needs a configured token to ask for
/// the voter's balance.
pub fn vote_on_campaign_within_limits(env: &Env, campaign_id: u32, voter: &String, approve: bool) -> (ok: bool)
    ensures
        ok == ((vote_target_result(env@, campaign_id) is Ok ==> env@.storage.token is Some) && (cast_vote_result(
            env@,
            campaign_id,
            *voter,
        ) is Ok ==> cast_vote_fits(env@, campaign_id, approve))),
{
    if check_vote_target(env, campaign_id).is_err() {
        return true;
    }
    if !env.storage.has_token() {
        return false;
    }
    if env.token_balance(voter) <= 0 || env.storage.get_has_voted(campaign_id, voter) {
        return true;
    }
    if approve {
        env.storage.get_approve_votes(campaign_id) < u32::MAX
    } else {
        env.storage.get_reject_votes(campaign_id) < u32::MAX
    }
}

/// Whether `verify_campaign_with_votes` may be called for this campaign.
pub fn verify_campaign_with_votes_within_limits(env: &Env, campaign_id: u32) -> (ok: bool)
    ensures
        ok == verify_with_votes_fits(env@, campaign_id),
{
    match env.storage.get_campaign(campaign_id) {
        None => true,
        Some(c) => {
            if c.is_verified {
                true
            } else {
                let approvals = env.storage.get_approve_votes(campaign_id);
                match approvals.checked_add(env.storage.get_reject_votes(campaign_id)) {
                    None => false,
                    Some(total) => {
                        if total < env.storage.get_min_votes_quorum(DEFAULT_MIN_VOTES_QUORUM) {
                            true
                        } else {
                            approvals.checked_mul(10000).is_some() && total != 0
                        }
                    },
                }
            }
        },
    }
}

} // verus!
