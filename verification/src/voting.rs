//! Community verification of campaigns by vote, and by the admin.
use vstd::prelude::*;

use crate::env::{authorized, Env, EnvView};
use crate::errors::Error;
use crate::storage::{setting_or, StoreView};
use crate::types::{Campaign, ContractEvent};

verus! {

/// Default minimum number of votes required to reach quorum.
pub const DEFAULT_MIN_VOTES_QUORUM: u32 = 3;

/// Default approval threshold in basis points (60%).
pub const DEFAULT_APPROVAL_THRESHOLD_BPS: u32 = 6000;

/// The quorum in force.
pub open spec fn quorum(e: EnvView) -> u32 {
    setting_or(e.storage.min_votes_quorum, DEFAULT_MIN_VOTES_QUORUM)
}

/// The approval threshold in force, in basis points.
pub open spec fn threshold(e: EnvView) -> u32 {
    setting_or(e.storage.approval_threshold_bps, DEFAULT_APPROVAL_THRESHOLD_BPS)
}

// ── set_params ───────────────────────────────────────────────────────────

pub open spec fn set_params_result(e: EnvView, admin: String, min_votes_quorum: u32, approval_threshold_bps: u32) -> Result<(), Error> {
    if admin@ != e.storage.admin->0@ {
        Err(Error::NotAuthorized)
    } else if min_votes_quorum == 0 || approval_threshold_bps == 0 || approval_threshold_bps > 10000 {
        Err(Error::ValidationFailed)
    } else {
        Ok(())
    }
}

pub open spec fn set_params_post(e: EnvView, min_votes_quorum: u32, approval_threshold_bps: u32) -> EnvView {
    EnvView {
        storage: StoreView {
            min_votes_quorum: Some(min_votes_quorum),
            approval_threshold_bps: Some(approval_threshold_bps),
            ..e.storage
        },
        ..e
    }
}

/// Updates the community voting parameters: a quorum of at least one vote
/// and an approval threshold of 1–10000 basis points.
///
/// Authorization: `admin`, which must be the stored admin.
pub fn set_params(env: &mut Env, admin: String, min_votes_quorum: u32, approval_threshold_bps: u32) -> (r: Result<(), Error>)
    requires
        old(env)@.storage.admin is Some,
    ensures
        r == set_params_result(old(env)@, admin, min_votes_quorum, approval_threshold_bps),
        final(env)@ == authorized(
            if r is Ok { set_params_post(old(env)@, min_votes_quorum, approval_threshold_bps) } else { old(env)@ },
            Some(admin),
        ),
{
    env.require_auth(admin.clone());
    let stored_admin = env.storage.get_admin();
    if admin != stored_admin {
        return Err(Error::NotAuthorized);
    }
    if min_votes_quorum == 0 || approval_threshold_bps == 0 || approval_threshold_bps > 10000 {
        return Err(Error::ValidationFailed);
    }
    env.storage.set_min_votes_quorum(min_votes_quorum);
    env.storage.set_approval_threshold_bps(approval_threshold_bps);
    Ok(())
}

// ── cast_vote ────────────────────────────────────────────────────────────

/// Whether a campaign is open to votes: it exists, is not verified yet, and is active.
pub open spec fn vote_target_result(e: EnvView, campaign_id: u32) -> Result<(), Error> {
    if !e.storage.campaigns.contains_key(campaign_id) {
        Err(Error::CampaignNotFound)
    } else {
        let c = e.storage.campaigns[campaign_id];
        if c.is_verified {
            Err(Error::CampaignAlreadyVerified)
        } else if c.is_cancelled || !c.is_active {
            Err(Error::CampaignNotActive)
        } else {
            Ok(())
        }
    }
}

pub open spec fn cast_vote_result(e: EnvView, campaign_id: u32, voter: String) -> Result<(), Error> {
    match vote_target_result(e, campaign_id) {
        Err(err) => Err(err),
        Ok(()) => if e.balance_of(voter@) <= 0 {
            Err(Error::NotTokenHolder)
        } else if e.storage.voted(campaign_id, voter@) {
            Err(Error::AlreadyVoted)
        } else {
            Ok(())
        },
    }
}

/// A successful vote's count stays within machine integers.
pub open spec fn cast_vote_fits(e: EnvView, campaign_id: u32, approve: bool) -> bool {
    if approve {
        e.storage.approvals(campaign_id) < u32::MAX
    } else {
        e.storage.rejections(campaign_id) < u32::MAX
    }
}

pub open spec fn cast_vote_post(e: EnvView, campaign_id: u32, voter: String, approve: bool) -> EnvView {
    let s = e.storage;
    EnvView {
        storage: StoreView {
            approve_votes: if approve {
                s.approve_votes.insert(campaign_id, (s.approvals(campaign_id) + 1) as u32)
            } else {
                s.approve_votes
            },
            reject_votes: if approve {
                s.reject_votes
            } else {
                s.reject_votes.insert(campaign_id, (s.rejections(campaign_id) + 1) as u32)
            },
            has_voted: s.has_voted.insert((campaign_id, voter@), true),
            ..s
        },
        events: e.events.push(ContractEvent::VoteCast { campaign_id, voter, approve }),
        ..e
    }
}

/// Checks that a campaign is open to votes: it exists, is not verified yet,
/// and is active.
pub fn check_vote_target(env: &Env, campaign_id: u32) -> (r: Result<(), Error>)
    ensures
        r == vote_target_result(env@, campaign_id),
{
    match env.storage.get_campaign(campaign_id) {
        None => Err(Error::CampaignNotFound),
        Some(campaign) => {
            if campaign.is_verified {
                Err(Error::CampaignAlreadyVerified)
            } else if campaign.is_cancelled || !campaign.is_active {
                Err(Error::CampaignNotActive)
            } else {
                Ok(())
            }
        },
    }
}

/// Records a vote (approve or reject) from a voter who holds tokens and has
/// not voted on the campaign yet.
///
/// Authorization: `voter`.
pub fn cast_vote(env: &mut Env, campaign_id: u32, voter: String, approve: bool) -> (r: Result<(), Error>)
    requires
        vote_target_result(old(env)@, campaign_id) is Ok ==> old(env)@.storage.token is Some,
        cast_vote_result(old(env)@, campaign_id, voter) is Ok ==> cast_vote_fits(old(env)@, campaign_id, approve),
    ensures
        r == cast_vote_result(old(env)@, campaign_id, voter),
        final(env)@ == authorized(
            if r is Ok { cast_vote_post(old(env)@, campaign_id, voter, approve) } else { old(env)@ },
            Some(voter),
        ),
{
    env.require_auth(voter.clone());
    match check_vote_target(env, campaign_id) {
        Err(e) => return Err(e),
        Ok(()) => {},
    }
    if env.token_balance(&voter) <= 0 {
        return Err(Error::NotTokenHolder);
    }
    if env.storage.get_has_voted(campaign_id, &voter) {
        return Err(Error::AlreadyVoted);
    }
    if approve {
        let votes = env.storage.get_approve_votes(campaign_id);
        env.storage.set_approve_votes(campaign_id, votes + 1);
    } else {
        let votes = env.storage.get_reject_votes(campaign_id);
        env.storage.set_reject_votes(campaign_id, votes + 1);
    }
    env.storage.set_has_voted(campaign_id, voter.clone());
    env.publish(ContractEvent::VoteCast { campaign_id, voter, approve });
    Ok(())
}

// ── admin_verify ─────────────────────────────────────────────────────────

pub open spec fn admin_verify_result(e: EnvView, campaign_id: u32) -> Result<(), Error> {
    if !e.storage.campaigns.contains_key(campaign_id) {
        Err(Error::CampaignNotFound)
    } else if e.storage.campaigns[campaign_id].is_verified {
        Err(Error::CampaignAlreadyVerified)
    } else {
        Ok(())
    }
}

/// `e` with the campaign marked verified.
pub open spec fn with_verified(e: EnvView, campaign_id: u32) -> StoreView {
    let c = e.storage.campaigns[campaign_id];
    StoreView { campaigns: e.storage.campaigns.insert(campaign_id, Campaign { is_verified: true, ..c }), ..e.storage }
}

pub open spec fn admin_verify_post(e: EnvView, campaign_id: u32) -> EnvView {
    EnvView {
        storage: with_verified(e, campaign_id),
        events: e.events.push(ContractEvent::CampaignVerified { campaign_id }),
        ..e
    }
}

/// Directly verifies a campaign.
///
/// Authorization: the stored admin.
pub fn admin_verify(env: &mut Env, campaign_id: u32) -> (r: Result<(), Error>)
    requires
        old(env)@.storage.admin is Some,
    ensures
        r == admin_verify_result(old(env)@, campaign_id),
        final(env)@ == authorized(
            if r is Ok { admin_verify_post(old(env)@, campaign_id) } else { old(env)@ },
            Some(old(env)@.storage.admin->0),
        ),
{
    let admin = env.storage.get_admin();
    env.require_auth(admin);
    let mut campaign = match env.storage.get_campaign(campaign_id) {
        Some(c) => c,
        None => return Err(Error::CampaignNotFound),
    };
    if campaign.is_verified {
        return Err(Error::CampaignAlreadyVerified);
    }
    campaign.is_verified = true;
    env.storage.set_campaign(campaign_id, campaign);
    env.publish(ContractEvent::CampaignVerified { campaign_id });
    Ok(())
}

// ── verify_with_votes ────────────────────────────────────────────────────

/// The votes cast on a campaign, approvals and rejections together.
pub open spec fn total_votes(e: EnvView, campaign_id: u32) -> int {
    e.storage.approvals(campaign_id) + e.storage.rejections(campaign_id)
}

/// The share of approvals among the votes, in basis points, rounded down.
pub open spec fn approval_bps(e: EnvView, campaign_id: u32) -> int {
    (e.storage.approvals(campaign_id) * 10000) / total_votes(e, campaign_id)
}

pub open spec fn verify_with_votes_result(e: EnvView, campaign_id: u32) -> Result<(), Error> {
    if !e.storage.campaigns.contains_key(campaign_id) {
        Err(Error::CampaignNotFound)
    } else if e.storage.campaigns[campaign_id].is_verified {
        Err(Error::CampaignAlreadyVerified)
    } else if total_votes(e, campaign_id) < quorum(e) {
        Err(Error::VotingQuorumNotMet)
    } else if approval_bps(e, campaign_id) < threshold(e) {
        Err(Error::VotingThresholdNotMet)
    } else {
        Ok(())
    }
}

/// The tally's arithmetic stays within machine integers and divides by a
/// non-zero count, as far as the tally gets.
pub open spec fn verify_with_votes_fits(e: EnvView, campaign_id: u32) -> bool {
    (e.storage.campaigns.contains_key(campaign_id) && !e.storage.campaigns[campaign_id].is_verified) ==> {
        &&& total_votes(e, campaign_id) <= u32::MAX
        &&& total_votes(e, campaign_id) >= quorum(e) ==> {
            &&& e.storage.approvals(campaign_id) * 10000 <= u32::MAX
            &&& total_votes(e, campaign_id) != 0
        }
    }
}

pub open spec fn verify_with_votes_post(e: EnvView, campaign_id: u32) -> EnvView {
    EnvView {
        storage: with_verified(e, campaign_id),
        events: e.events.push(
            ContractEvent::CampaignVerifiedByVotes { campaign_id, approve_votes: e.storage.approvals(campaign_id) },
        ),
        ..e
    }
}

/// Marks a campaign verified when its votes reach the quorum and the share
/// of approvals reaches the threshold.
pub fn verify_with_votes(env: &mut Env, campaign_id: u32) -> (r: Result<(), Error>)
    requires
        verify_with_votes_fits(old(env)@, campaign_id),
    ensures
        r == verify_with_votes_result(old(env)@, campaign_id),
        final(env)@ == (if r is Ok { verify_with_votes_post(old(env)@, campaign_id) } else { old(env)@ }),
{
    let mut campaign = match env.storage.get_campaign(campaign_id) {
        Some(c) => c,
        None => return Err(Error::CampaignNotFound),
    };
    if campaign.is_verified {
        return Err(Error::CampaignAlreadyVerified);
    }
    let approve_votes = env.storage.get_approve_votes(campaign_id);
    let reject_votes = env.storage.get_reject_votes(campaign_id);
    let total = approve_votes + reject_votes;
    let min_quorum = env.storage.get_min_votes_quorum(DEFAULT_MIN_VOTES_QUORUM);
    if total < min_quorum {
        return Err(Error::VotingQuorumNotMet);
    }
    let threshold = env.storage.get_approval_threshold_bps(DEFAULT_APPROVAL_THRESHOLD_BPS);
    let approval = (approve_votes * 10000) / total;
    if approval < threshold {
        return Err(Error::VotingThresholdNotMet);
    }
    campaign.is_verified = true;
    env.storage.set_campaign(campaign_id, campaign);
    env.publish(ContractEvent::CampaignVerifiedByVotes { campaign_id, approve_votes });
    Ok(())
}

} // verus!
