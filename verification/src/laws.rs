//! Properties of the contract that span operations.
use vstd::prelude::*;

use crate::contract::{
    admin_auth, cancel_campaign_post, cancel_campaign_result, creator_auth, init_auth, capped_fee, claim_creator_revenue_computes, claim_creator_revenue_fits,
    claim_creator_revenue_post, claim_creator_revenue_result, claim_refund_post, claim_refund_result,
    claim_revenue_computes, claim_revenue_fits, claim_revenue_post, claim_revenue_result, contribute_fits,
    contribute_post, contribute_result, create_campaign_fits, create_campaign_post, create_campaign_result,
    creator_share_total, deposit_revenue_fits, deposit_revenue_post, deposit_revenue_result,
    init_post, init_result, revenue_due, update_admin_post, update_admin_result,
    update_campaign_description_post, update_campaign_description_result, update_campaign_post,
    update_campaign_result, update_platform_fee_post, withdraw_funds_fits, withdraw_funds_post, withdraw_funds_result,
    MAX_PLATFORM_FEE, MAX_REVENUE_SHARE_BPS,
};
use crate::env::{authorized, EnvView};
use crate::errors::Error;
use crate::storage::StoreView;
use crate::types::{Campaign, Category};
use crate::voting::{
    admin_verify_post, admin_verify_result, cast_vote_fits, cast_vote_post, cast_vote_result, set_params_post,
    set_params_result, verify_with_votes_fits, verify_with_votes_post, verify_with_votes_result,
    vote_target_result,
};

verus! {

/// A campaign as the contract's operations leave it: a positive goal, a
/// non-negative amount raised, revenue sharing only for startups at 1–50%,
/// a cancelled campaign inactive, and a withdrawn one inactive, not cancelled
/// and at its goal.
pub open spec fn campaign_wf(c: Campaign) -> bool {
    &&& c.funding_goal > 0
    &&& c.amount_raised >= 0
    &&& c.has_revenue_sharing ==> c.category == Category::EducationalStartup && 1 <= c.revenue_share_percentage
        <= MAX_REVENUE_SHARE_BPS
    &&& c.is_cancelled ==> !c.is_active
    &&& c.funds_withdrawn ==> !c.is_active && !c.is_cancelled && c.amount_raised >= c.funding_goal
}

/// Storage as the contract's operations leave it: settings in their ranges,
/// each campaign well formed under its own id, no campaign beyond the count,
/// and every amount non-negative, each contribution to an existing campaign
/// and at most what that campaign raised.
pub open spec fn store_wf(s: StoreView) -> bool {
    &&& (s.platform_fee matches Some(f) ==> f <= MAX_PLATFORM_FEE)
    &&& (s.min_votes_quorum matches Some(q) ==> q >= 1)
    &&& (s.approval_threshold_bps matches Some(t) ==> 1 <= t <= 10000)
    &&& forall|id: u32| #[trigger] s.campaigns.contains_key(id) ==> {
        &&& campaign_wf(s.campaigns[id])
        &&& s.campaigns[id].id == id
        &&& 1 <= id <= s.campaign_count_value()
    }
    &&& forall|k: (u32, Seq<char>)| #[trigger] s.contributions.contains_key(k) ==> {
        &&& s.contributions[k] >= 0
        &&& s.campaigns.contains_key(k.0)
        &&& s.contributions[k] <= s.campaigns[k.0].amount_raised
    }
    &&& forall|id: u32| #[trigger] s.revenue_pool.contains_key(id) ==> s.revenue_pool[id] >= 0
    &&& forall|k: (u32, Seq<char>)| #[trigger] s.revenue_claimed.contains_key(k) ==> s.revenue_claimed[k] >= 0
    &&& forall|id: u32| #[trigger] s.creator_revenue_claimed.contains_key(id) ==> s.creator_revenue_claimed[id] >= 0
}

/// A call of one of the contract's state-changing operations, with its arguments.
pub enum Call {
    Init { admin: String, token: String, platform_fee: u32 },
    CreateCampaign {
        creator: String,
        title: String,
        description: String,
        funding_goal: i128,
        duration_days: u64,
        category: Category,
        has_revenue_sharing: bool,
        revenue_share_percentage: u32,
    },
    Contribute { campaign_id: u32, contributor: String, amount: i128 },
    WithdrawFunds { campaign_id: u32 },
    CancelCampaign { campaign_id: u32 },
    UpdateCampaign { campaign_id: u32, title: String, description: String },
    UpdateCampaignDescription { campaign_id: u32, description: String },
    ClaimRefund { campaign_id: u32, contributor: String },
    DepositRevenue { campaign_id: u32, amount: i128 },
    ClaimRevenue { campaign_id: u32, contributor: String },
    ClaimCreatorRevenue { campaign_id: u32 },
    SetVotingParams { admin: String, min_votes_quorum: u32, approval_threshold_bps: u32 },
    VoteOnCampaign { campaign_id: u32, voter: String, approve: bool },
    VerifyCampaign { campaign_id: u32 },
    VerifyCampaignWithVotes { campaign_id: u32 },
    UpdatePlatformFee { new_fee: u32 },
    UpdateAdmin { admin: String, new_admin: String },
}

/// The operation's `requires`: what the call needs of the environment.
pub open spec fn call_admissible(e: EnvView, call: Call) -> bool {
    match call {
        Call::Init { .. } => true,
        Call::CreateCampaign {
            title,
            description,
            funding_goal,
            duration_days,
            category,
            has_revenue_sharing,
            revenue_share_percentage,
            ..
        } => create_campaign_result(e, title, description, funding_goal, duration_days, category, has_revenue_sharing,
            revenue_share_percentage) is Ok ==> create_campaign_fits(e, duration_days),
        Call::Contribute { campaign_id, contributor, amount } => contribute_result(e, campaign_id, contributor, amount) is Ok
            ==> contribute_fits(e, campaign_id, contributor, amount),
        Call::WithdrawFunds { campaign_id } => withdraw_funds_result(e, campaign_id) is Ok ==> withdraw_funds_fits(e, campaign_id),
        Call::CancelCampaign { .. } => true,
        Call::UpdateCampaign { .. } => true,
        Call::UpdateCampaignDescription { .. } => true,
        Call::ClaimRefund { .. } => true,
        Call::DepositRevenue { campaign_id, amount } => deposit_revenue_result(e, campaign_id, amount) is Ok
            ==> deposit_revenue_fits(e, campaign_id, amount),
        Call::ClaimRevenue { campaign_id, contributor } => claim_revenue_computes(e, campaign_id, contributor)
            ==> claim_revenue_fits(e, campaign_id, contributor),
        Call::ClaimCreatorRevenue { campaign_id } => claim_creator_revenue_computes(e, campaign_id)
            ==> claim_creator_revenue_fits(e, campaign_id),
        Call::SetVotingParams { .. } => e.storage.admin is Some,
        Call::VoteOnCampaign { campaign_id, voter, approve } => {
            &&& vote_target_result(e, campaign_id) is Ok ==> e.storage.token is Some
            &&& cast_vote_result(e, campaign_id, voter) is Ok ==> cast_vote_fits(e, campaign_id, approve)
        },
        Call::VerifyCampaign { .. } => e.storage.admin is Some,
        Call::VerifyCampaignWithVotes { campaign_id } => verify_with_votes_fits(e, campaign_id),
        Call::UpdatePlatformFee { .. } => e.storage.admin is Some,
        Call::UpdateAdmin { .. } => e.storage.admin is Some,
    }
}

/// The account whose authorization the call requires, if any.
pub open spec fn call_auth(e: EnvView, call: Call) -> Option<String> {
    match call {
        Call::Init { admin, .. } => init_auth(e, admin),
        Call::CreateCampaign { creator, .. } => Some(creator),
        Call::Contribute { contributor, .. } => Some(contributor),
        Call::WithdrawFunds { campaign_id } => creator_auth(e, campaign_id),
        Call::CancelCampaign { campaign_id } => creator_auth(e, campaign_id),
        Call::UpdateCampaign { campaign_id, .. } => creator_auth(e, campaign_id),
        Call::UpdateCampaignDescription { campaign_id, .. } => creator_auth(e, campaign_id),
        Call::ClaimRefund { contributor, .. } => Some(contributor),
        Call::DepositRevenue { campaign_id, .. } => creator_auth(e, campaign_id),
        Call::ClaimRevenue { .. } => None,
        Call::ClaimCreatorRevenue { campaign_id } => creator_auth(e, campaign_id),
        Call::SetVotingParams { admin, .. } => Some(admin),
        Call::VoteOnCampaign { voter, .. } => Some(voter),
        Call::VerifyCampaign { .. } => admin_auth(e),
        Call::VerifyCampaignWithVotes { .. } => None,
        Call::UpdatePlatformFee { .. } => admin_auth(e),
        Call::UpdateAdmin { admin, .. } => Some(admin),
    }
}

/// The environment after the call: its effects, with the authorization it
/// required recorded.
pub open spec fn after(e: EnvView, call: Call) -> EnvView {
    authorized(effect(e, call), call_auth(e, call))
}

/// What the call does besides asking for authorization: the operation's
/// effects when it succeeds, nothing when it fails.
pub open spec fn effect(e: EnvView, call: Call) -> EnvView {
    match call {
        Call::Init { admin, token, platform_fee } => if init_result(e) is Ok {
            init_post(e, admin, token, platform_fee)
        } else {
            e
        },
        Call::CreateCampaign {
            creator,
            title,
            description,
            funding_goal,
            duration_days,
            category,
            has_revenue_sharing,
            revenue_share_percentage,
        } => if create_campaign_result(e, title, description, funding_goal, duration_days, category,
            has_revenue_sharing, revenue_share_percentage) is Ok {
            create_campaign_post(e, creator, title, description, funding_goal, duration_days, category,
                has_revenue_sharing, revenue_share_percentage)
        } else {
            e
        },
        Call::Contribute { campaign_id, contributor, amount } => if contribute_result(e, campaign_id, contributor, amount) is Ok {
            contribute_post(e, campaign_id, contributor, amount)
        } else {
            e
        },
        Call::WithdrawFunds { campaign_id } => if withdraw_funds_result(e, campaign_id) is Ok {
            withdraw_funds_post(e, campaign_id)
        } else {
            e
        },
        Call::CancelCampaign { campaign_id } => if cancel_campaign_result(e, campaign_id) is Ok {
            cancel_campaign_post(e, campaign_id)
        } else {
            e
        },
        Call::UpdateCampaign { campaign_id, title, description } => if update_campaign_result(e, campaign_id, title,
            description) is Ok {
            update_campaign_post(e, campaign_id, title, description)
        } else {
            e
        },
        Call::UpdateCampaignDescription { campaign_id, description } => if update_campaign_description_result(e,
            campaign_id, description) is Ok {
            update_campaign_description_post(e, campaign_id, description)
        } else {
            e
        },
        Call::ClaimRefund { campaign_id, contributor } => if claim_refund_result(e, campaign_id, contributor) is Ok {
            claim_refund_post(e, campaign_id, contributor)
        } else {
            e
        },
        Call::DepositRevenue { campaign_id, amount } => if deposit_revenue_result(e, campaign_id, amount) is Ok {
            deposit_revenue_post(e, campaign_id, amount)
        } else {
            e
        },
        Call::ClaimRevenue { campaign_id, contributor } => if claim_revenue_result(e, campaign_id, contributor) is Ok {
            claim_revenue_post(e, campaign_id, contributor)
        } else {
            e
        },
        Call::ClaimCreatorRevenue { campaign_id } => if claim_creator_revenue_result(e, campaign_id) is Ok {
            claim_creator_revenue_post(e, campaign_id)
        } else {
            e
        },
        Call::SetVotingParams { admin, min_votes_quorum, approval_threshold_bps } => if set_params_result(e, admin,
            min_votes_quorum, approval_threshold_bps) is Ok {
            set_params_post(e, min_votes_quorum, approval_threshold_bps)
        } else {
            e
        },
        Call::VoteOnCampaign { campaign_id, voter, approve } => if cast_vote_result(e, campaign_id, voter) is Ok {
            cast_vote_post(e, campaign_id, voter, approve)
        } else {
            e
        },
        Call::VerifyCampaign { campaign_id } => if admin_verify_result(e, campaign_id) is Ok {
            admin_verify_post(e, campaign_id)
        } else {
            e
        },
        Call::VerifyCampaignWithVotes { campaign_id } => if verify_with_votes_result(e, campaign_id) is Ok {
            verify_with_votes_post(e, campaign_id)
        } else {
            e
        },
        Call::UpdatePlatformFee { new_fee } => update_platform_fee_post(e, new_fee),
        Call::UpdateAdmin { admin, new_admin } => if update_admin_result(e, admin) is Ok {
            update_admin_post(e, new_admin)
        } else {
            e
        },
    }
}

/// Every operation keeps storage well formed.  The one exception is the
/// first `init` of a contract in which campaigns were created before it: it
/// resets the campaign count below their ids.
pub proof fn lemma_every_call_keeps_store_wf(e: EnvView, call: Call)
    requires
        store_wf(e.storage),
        call_admissible(e, call),
        (call is Init && e.storage.admin is None) ==> e.storage.campaigns.dom() == Set::<u32>::empty(),
    ensures
        store_wf(after(e, call).storage),
{
    match call {
        Call::Init { .. } => lemma_init_keeps_store_wf(e, call),
        Call::CreateCampaign { .. } => lemma_create_campaign_keeps_store_wf(e, call),
        Call::Contribute { .. } => lemma_contribute_keeps_store_wf(e, call),
        Call::WithdrawFunds { .. } => lemma_withdraw_funds_keeps_store_wf(e, call),
        Call::CancelCampaign { .. } => lemma_cancel_campaign_keeps_store_wf(e, call),
        Call::UpdateCampaign { .. } => lemma_update_campaign_keeps_store_wf(e, call),
        Call::UpdateCampaignDescription { .. } => lemma_update_campaign_description_keeps_store_wf(e, call),
        Call::ClaimRefund { .. } => lemma_claim_refund_keeps_store_wf(e, call),
        Call::DepositRevenue { .. } => lemma_deposit_revenue_keeps_store_wf(e, call),
        Call::ClaimRevenue { .. } => lemma_claim_revenue_keeps_store_wf(e, call),
        Call::ClaimCreatorRevenue { .. } => lemma_claim_creator_revenue_keeps_store_wf(e, call),
        Call::SetVotingParams { .. } => lemma_set_voting_params_keeps_store_wf(e, call),
        Call::VoteOnCampaign { .. } => lemma_vote_on_campaign_keeps_store_wf(e, call),
        Call::VerifyCampaign { .. } => lemma_verify_campaign_keeps_store_wf(e, call),
        Call::VerifyCampaignWithVotes { .. } => lemma_verify_campaign_with_votes_keeps_store_wf(e, call),
        Call::UpdatePlatformFee { .. } => lemma_update_platform_fee_keeps_store_wf(e, call),
        Call::UpdateAdmin { .. } => lemma_update_admin_keeps_store_wf(e, call),
    }
}

proof fn lemma_init_keeps_store_wf(e: EnvView, call: Call)
    requires
        store_wf(e.storage),
        call_admissible(e, call),
        call is Init,
        e.storage.admin is None ==> e.storage.campaigns.dom() == Set::<u32>::empty(),
    ensures
        store_wf(after(e, call).storage),
{
    let s = e.storage;
    let t = after(e, call).storage;
    match call {
        Call::Init { .. } => {
            if init_result(e) is Ok {
                assert forall|id: u32| #[trigger] t.campaigns.contains_key(id) implies false by {
                    assert(s.campaigns.dom().contains(id));
                }
            }
        },
        _ => {},
    }
}

proof fn lemma_create_campaign_keeps_store_wf(e: EnvView, call: Call)
    requires
        store_wf(e.storage),
        call_admissible(e, call),
        call is CreateCampaign,
    ensures
        store_wf(after(e, call).storage),
{
    let s = e.storage;
    let t = after(e, call).storage;
    match call {
        Call::CreateCampaign { .. } => {
            assert forall|id: u32| #[trigger] t.campaigns.contains_key(id) implies {
                &&& campaign_wf(t.campaigns[id])
                &&& t.campaigns[id].id == id
                &&& 1 <= id <= t.campaign_count_value()
            } by {
                if t != s && s.campaigns.contains_key(id) {
                    assert(s.campaigns[id].id == id);
                }
            }
        },
        _ => {},
    }
}

proof fn lemma_contribute_keeps_store_wf(e: EnvView, call: Call)
    requires
        store_wf(e.storage),
        call_admissible(e, call),
        call is Contribute,
    ensures
        store_wf(after(e, call).storage),
{
    let s = e.storage;
    let t = after(e, call).storage;
    match call {
        Call::Contribute { campaign_id, contributor, amount } => {
            if contribute_result(e, campaign_id, contributor, amount) is Ok {
                assert(s.campaigns.contains_key(campaign_id));
                assert forall|id: u32| #[trigger] t.campaigns.contains_key(id) implies {
                    &&& campaign_wf(t.campaigns[id])
                    &&& t.campaigns[id].id == id
                    &&& 1 <= id <= t.campaign_count_value()
                } by {
                    assert(s.campaigns.contains_key(id));
                }
                assert forall|k: (u32, Seq<char>)| #[trigger] t.contributions.contains_key(k) implies t.contributions[k] >= 0 by {
                    if k != (campaign_id, contributor@) {
                        assert(s.contributions.contains_key(k));
                    } else if s.contributions.contains_key(k) {
                        assert(s.contributions[k] >= 0);
                    }
                }
            }
        },
        _ => {},
    }
}

proof fn lemma_withdraw_funds_keeps_store_wf(e: EnvView, call: Call)
    requires
        store_wf(e.storage),
        call_admissible(e, call),
        call is WithdrawFunds,
    ensures
        store_wf(after(e, call).storage),
{
    let s = e.storage;
    let t = after(e, call).storage;
    match call {
        Call::WithdrawFunds { campaign_id } => {
            if withdraw_funds_result(e, campaign_id) is Ok {
                assert forall|id: u32| #[trigger] t.campaigns.contains_key(id) implies {
                    &&& campaign_wf(t.campaigns[id])
                    &&& t.campaigns[id].id == id
                    &&& 1 <= id <= t.campaign_count_value()
                } by {
                    assert(s.campaigns.contains_key(id));
                }
            }
        },
        _ => {},
    }
}

proof fn lemma_cancel_campaign_keeps_store_wf(e: EnvView, call: Call)
    requires
        store_wf(e.storage),
        call_admissible(e, call),
        call is CancelCampaign,
    ensures
        store_wf(after(e, call).storage),
{
    let s = e.storage;
    let t = after(e, call).storage;
    match call {
        Call::CancelCampaign { campaign_id } => {
            if cancel_campaign_result(e, campaign_id) is Ok {
                assert forall|id: u32| #[trigger] t.campaigns.contains_key(id) implies {
                    &&& campaign_wf(t.campaigns[id])
                    &&& t.campaigns[id].id == id
                    &&& 1 <= id <= t.campaign_count_value()
                } by {
                    assert(s.campaigns.contains_key(id));
                }
            }
        },
        _ => {},
    }
}

proof fn lemma_update_campaign_keeps_store_wf(e: EnvView, call: Call)
    requires
        store_wf(e.storage),
        call_admissible(e, call),
        call is UpdateCampaign,
    ensures
        store_wf(after(e, call).storage),
{
    let s = e.storage;
    let t = after(e, call).storage;
    match call {
        Call::UpdateCampaign { campaign_id, title, description } => {
            if update_campaign_result(e, campaign_id, title, description) is Ok {
                assert forall|id: u32| #[trigger] t.campaigns.contains_key(id) implies {
                    &&& campaign_wf(t.campaigns[id])
                    &&& t.campaigns[id].id == id
                    &&& 1 <= id <= t.campaign_count_value()
                } by {
                    assert(s.campaigns.contains_key(id));
                }
            }
        },
        _ => {},
    }
}

proof fn lemma_update_campaign_description_keeps_store_wf(e: EnvView, call: Call)
    requires
        store_wf(e.storage),
        call_admissible(e, call),
        call is UpdateCampaignDescription,
    ensures
        store_wf(after(e, call).storage),
{
    let s = e.storage;
    let t = after(e, call).storage;
    match call {
        Call::UpdateCampaignDescription { campaign_id, description } => {
            if update_campaign_description_result(e, campaign_id, description) is Ok {
                assert forall|id: u32| #[trigger] t.campaigns.contains_key(id) implies {
                    &&& campaign_wf(t.campaigns[id])
                    &&& t.campaigns[id].id == id
                    &&& 1 <= id <= t.campaign_count_value()
                } by {
                    assert(s.campaigns.contains_key(id));
                }
            }
        },
        _ => {},
    }
}

proof fn lemma_claim_refund_keeps_store_wf(e: EnvView, call: Call)
    requires
        store_wf(e.storage),
        call_admissible(e, call),
        call is ClaimRefund,
    ensures
        store_wf(after(e, call).storage),
{
    let s = e.storage;
    let t = after(e, call).storage;
    match call {
        Call::ClaimRefund { campaign_id, contributor } => {
            if claim_refund_result(e, campaign_id, contributor) is Ok {
                assert forall|k: (u32, Seq<char>)| #[trigger] t.contributions.contains_key(k) implies t.contributions[k] >= 0 by {
                    if k != (campaign_id, contributor@) {
                        assert(s.contributions.contains_key(k));
                    }
                }
            }
        },
        _ => {},
    }
}

proof fn lemma_deposit_revenue_keeps_store_wf(e: EnvView, call: Call)
    requires
        store_wf(e.storage),
        call_admissible(e, call),
        call is DepositRevenue,
    ensures
        store_wf(after(e, call).storage),
{
    let s = e.storage;
    let t = after(e, call).storage;
    match call {
        Call::DepositRevenue { campaign_id, amount } => {
            if deposit_revenue_result(e, campaign_id, amount) is Ok {
                assert forall|id: u32| #[trigger] t.revenue_pool.contains_key(id) implies t.revenue_pool[id] >= 0 by {
                    if id != campaign_id {
                        assert(s.revenue_pool.contains_key(id));
                    } else if s.revenue_pool.contains_key(id) {
                        assert(s.revenue_pool[id] >= 0);
                    }
                }
            }
        },
        _ => {},
    }
}

proof fn lemma_claim_revenue_keeps_store_wf(e: EnvView, call: Call)
    requires
        store_wf(e.storage),
        call_admissible(e, call),
        call is ClaimRevenue,
    ensures
        store_wf(after(e, call).storage),
{
    let s = e.storage;
    let t = after(e, call).storage;
    match call {
        Call::ClaimRevenue { campaign_id, contributor } => {
            if claim_revenue_result(e, campaign_id, contributor) is Ok {
                let k0 = (campaign_id, contributor@);
                if s.revenue_claimed.contains_key(k0) {
                    assert(s.revenue_claimed[k0] >= 0);
                }
                assert forall|k: (u32, Seq<char>)| #[trigger] t.revenue_claimed.contains_key(k) implies t.revenue_claimed[k] >= 0 by {
                    if k != k0 {
                        assert(s.revenue_claimed.contains_key(k));
                    }
                }
            }
        },
        _ => {},
    }
}

proof fn lemma_claim_creator_revenue_keeps_store_wf(e: EnvView, call: Call)
    requires
        store_wf(e.storage),
        call_admissible(e, call),
        call is ClaimCreatorRevenue,
    ensures
        store_wf(after(e, call).storage),
{
    let s = e.storage;
    let t = after(e, call).storage;
    match call {
        Call::ClaimCreatorRevenue { campaign_id } => {
            if claim_creator_revenue_result(e, campaign_id) is Ok {
                if s.creator_revenue_claimed.contains_key(campaign_id) {
                    assert(s.creator_revenue_claimed[campaign_id] >= 0);
                }
                assert forall|id: u32| #[trigger] t.creator_revenue_claimed.contains_key(id) implies t.creator_revenue_claimed[id] >= 0 by {
                    if id != campaign_id {
                        assert(s.creator_revenue_claimed.contains_key(id));
                    }
                }
            }
        },
        _ => {},
    }
}

proof fn lemma_set_voting_params_keeps_store_wf(e: EnvView, call: Call)
    requires
        store_wf(e.storage),
        call_admissible(e, call),
        call is SetVotingParams,
    ensures
        store_wf(after(e, call).storage),
{
    let s = e.storage;
    let t = after(e, call).storage;
    match call {
        Call::SetVotingParams { .. } => {},
        _ => {},
    }
}

proof fn lemma_vote_on_campaign_keeps_store_wf(e: EnvView, call: Call)
    requires
        store_wf(e.storage),
        call_admissible(e, call),
        call is VoteOnCampaign,
    ensures
        store_wf(after(e, call).storage),
{
    let s = e.storage;
    let t = after(e, call).storage;
    match call {
        Call::VoteOnCampaign { .. } => {},
        _ => {},
    }
}

proof fn lemma_verify_campaign_keeps_store_wf(e: EnvView, call: Call)
    requires
        store_wf(e.storage),
        call_admissible(e, call),
        call is VerifyCampaign,
    ensures
        store_wf(after(e, call).storage),
{
    let s = e.storage;
    let t = after(e, call).storage;
    match call {
        Call::VerifyCampaign { campaign_id } => {
            if admin_verify_result(e, campaign_id) is Ok {
                assert forall|id: u32| #[trigger] t.campaigns.contains_key(id) implies {
                    &&& campaign_wf(t.campaigns[id])
                    &&& t.campaigns[id].id == id
                    &&& 1 <= id <= t.campaign_count_value()
                } by {
                    assert(s.campaigns.contains_key(id));
                }
            }
        },
        _ => {},
    }
}

proof fn lemma_verify_campaign_with_votes_keeps_store_wf(e: EnvView, call: Call)
    requires
        store_wf(e.storage),
        call_admissible(e, call),
        call is VerifyCampaignWithVotes,
    ensures
        store_wf(after(e, call).storage),
{
    let s = e.storage;
    let t = after(e, call).storage;
    match call {
        Call::VerifyCampaignWithVotes { campaign_id } => {
            if verify_with_votes_result(e, campaign_id) is Ok {
                assert forall|id: u32| #[trigger] t.campaigns.contains_key(id) implies {
                    &&& campaign_wf(t.campaigns[id])
                    &&& t.campaigns[id].id == id
                    &&& 1 <= id <= t.campaign_count_value()
                } by {
                    assert(s.campaigns.contains_key(id));
                }
            }
        },
        _ => {},
    }
}

proof fn lemma_update_platform_fee_keeps_store_wf(e: EnvView, call: Call)
    requires
        store_wf(e.storage),
        call_admissible(e, call),
        call is UpdatePlatformFee,
    ensures
        store_wf(after(e, call).storage),
{
    let s = e.storage;
    let t = after(e, call).storage;
    match call {
        Call::UpdatePlatformFee { .. } => {},
        _ => {},
    }
}

proof fn lemma_update_admin_keeps_store_wf(e: EnvView, call: Call)
    requires
        store_wf(e.storage),
        call_admissible(e, call),
        call is UpdateAdmin,
    ensures
        store_wf(after(e, call).storage),
{
    let s = e.storage;
    let t = after(e, call).storage;
    match call {
        Call::UpdateAdmin { .. } => {},
        _ => {},
    }
}

/// A contract is initialized once: after a successful `init`, every further
/// `init` is refused with `AlreadyInitialized` and changes nothing.
pub proof fn lemma_init_only_once(e: EnvView, admin: String, token: String, platform_fee: u32, call: Call)
    requires
        init_result(e) is Ok,
        call is Init,
    ensures
        init_result(init_post(e, admin, token, platform_fee)) == Err::<(), Error>(Error::AlreadyInitialized),
        after(init_post(e, admin, token, platform_fee), call) == init_post(e, admin, token, platform_fee),
{
}

/// The platform fee in force never exceeds 10%, whatever fee was asked for at
/// `init` or in an update.
pub proof fn lemma_fee_is_capped(e: EnvView, admin: String, token: String, requested_fee: u32)
    ensures
        init_post(e, admin, token, requested_fee).storage.platform_fee_value() <= MAX_PLATFORM_FEE,
        init_post(e, admin, token, requested_fee).storage.platform_fee_value() == capped_fee(requested_fee),
        update_platform_fee_post(e, requested_fee).storage.platform_fee_value() <= MAX_PLATFORM_FEE,
        update_platform_fee_post(e, requested_fee).storage.platform_fee_value() == capped_fee(requested_fee),
{
}

/// A created campaign can be read back under the id `create_campaign`
/// returned, with the values it was created with (creator, texts, goal,
/// deadline, category and revenue-sharing terms), active, neither verified,
/// cancelled nor withdrawn, nothing raised yet, and an empty revenue pool;
/// the id is one more than the campaigns counted before, and every other
/// campaign is left as it was.
pub proof fn lemma_created_campaign_reads_back(
    e: EnvView,
    creator: String,
    title: String,
    description: String,
    funding_goal: i128,
    duration_days: u64,
    category: Category,
    has_revenue_sharing: bool,
    revenue_share_percentage: u32,
)
    requires
        create_campaign_result(e, title, description, funding_goal, duration_days, category, has_revenue_sharing,
            revenue_share_percentage) is Ok,
        create_campaign_fits(e, duration_days),
    ensures
        ({
            let id = create_campaign_result(e, title, description, funding_goal, duration_days, category,
                has_revenue_sharing, revenue_share_percentage)->Ok_0;
            let t = create_campaign_post(e, creator, title, description, funding_goal, duration_days, category,
                has_revenue_sharing, revenue_share_percentage).storage;
            &&& id == e.storage.campaign_count_value() + 1
            &&& t.campaign_count_value() == id
            &&& t.campaigns.contains_key(id)
            &&& t.campaigns[id].id == id
            &&& t.campaigns[id].creator == creator
            &&& t.campaigns[id].title == title
            &&& t.campaigns[id].description == description
            &&& t.campaigns[id].funding_goal == funding_goal
            &&& t.campaigns[id].deadline == e.timestamp + duration_days * 86400
            &&& t.campaigns[id].amount_raised == 0
            &&& t.campaigns[id].is_active && !t.campaigns[id].is_verified
            &&& !t.campaigns[id].is_cancelled && !t.campaigns[id].funds_withdrawn
            &&& t.campaigns[id].category == category
            &&& t.campaigns[id].has_revenue_sharing == has_revenue_sharing
            &&& t.campaigns[id].revenue_share_percentage == revenue_share_percentage
            &&& t.pool(id) == 0
            &&& forall|other: u32| #[trigger] t.campaigns.contains_key(other) && other != id ==> e.storage.campaigns.contains_key(
                other,
            ) && t.campaigns[other] == e.storage.campaigns[other]
        }),
{
}

/// A contribution adds its amount both to what the campaign raised and to
/// what the contributor gave, and moves that amount from the contributor to
/// the contract.
pub proof fn lemma_contribution_adds_up(e: EnvView, campaign_id: u32, contributor: String, amount: i128)
    requires
        contribute_result(e, campaign_id, contributor, amount) is Ok,
        contribute_fits(e, campaign_id, contributor, amount),
    ensures
        ({
            let t = contribute_post(e, campaign_id, contributor, amount);
            &&& t.storage.campaigns[campaign_id].amount_raised == e.storage.campaigns[campaign_id].amount_raised + amount
            &&& t.storage.contribution(campaign_id, contributor@) == e.storage.contribution(campaign_id, contributor@)
                + amount
            &&& t.transfers.last().amount == amount
            &&& t.transfers.last().from == crate::types::Party::Account(contributor)
            &&& t.transfers.last().to == crate::types::Party::Contract
        }),
{
}

/// The deadline is the last moment to contribute: an otherwise acceptable
/// contribution succeeds at the deadline and is refused with
/// `DeadlinePassed` after it.
pub proof fn lemma_deadline_is_inclusive(e: EnvView, campaign_id: u32, contributor: String, amount: i128)
    requires
        amount > 0,
        e.storage.campaigns.contains_key(campaign_id),
        e.storage.campaigns[campaign_id].is_active,
        !e.storage.campaigns[campaign_id].is_cancelled,
        contributor@ != e.storage.campaigns[campaign_id].creator@,
    ensures
        e.timestamp <= e.storage.campaigns[campaign_id].deadline ==> contribute_result(e, campaign_id, contributor, amount)
            is Ok,
        e.timestamp > e.storage.campaigns[campaign_id].deadline ==> contribute_result(e, campaign_id, contributor,
            amount) == Err::<(), Error>(Error::DeadlinePassed),
{
}

/// Funds are withdrawn at most once: after a successful withdrawal, the next
/// one is refused with `FundsAlreadyWithdrawn`.
pub proof fn lemma_withdraw_only_once(e: EnvView, campaign_id: u32)
    requires
        withdraw_funds_result(e, campaign_id) is Ok,
    ensures
        withdraw_funds_result(withdraw_funds_post(e, campaign_id), campaign_id) == Err::<(), Error>(
            Error::FundsAlreadyWithdrawn,
        ),
{
}

/// A withdrawal pays out exactly what was raised: the fee to the admin and
/// the rest to the creator, the fee being at most a tenth of it.
pub proof fn lemma_withdrawal_pays_out_what_was_raised(e: EnvView, campaign_id: u32)
    requires
        store_wf(e.storage),
        withdraw_funds_result(e, campaign_id) is Ok,
        withdraw_funds_fits(e, campaign_id),
    ensures
        ({
            let raised = e.storage.campaigns[campaign_id].amount_raised;
            let t = withdraw_funds_post(e, campaign_id).transfers;
            let fee = t[t.len() - 2];
            let payout = t[t.len() - 1];
            &&& fee.to == crate::types::Party::Admin
            &&& payout.to == crate::types::Party::Account(e.storage.campaigns[campaign_id].creator)
            &&& fee.amount + payout.amount == raised
            &&& 0 <= fee.amount <= raised / 10
        }),
{
    let raised = e.storage.campaigns[campaign_id].amount_raised;
    assert(e.storage.campaigns.contains_key(campaign_id));
    crate::revenue::lemma_fee_split(raised as int, e.storage.platform_fee_value() as int);
}

/// Once a campaign's funds are withdrawn, no contributor can be refunded.
pub proof fn lemma_withdrawn_campaign_refunds_nothing(e: EnvView, campaign_id: u32, contributor: String)
    requires
        store_wf(e.storage),
        e.storage.campaigns.contains_key(campaign_id),
        e.storage.campaigns[campaign_id].funds_withdrawn,
    ensures
        claim_refund_result(e, campaign_id, contributor) == Err::<(), Error>(Error::ValidationFailed),
{
}

/// While contributors may be refunded, the creator cannot withdraw.
pub proof fn lemma_refundable_campaign_cannot_be_withdrawn(e: EnvView, campaign_id: u32)
    requires
        e.storage.campaigns.contains_key(campaign_id),
        crate::contract::refundable(e.storage.campaigns[campaign_id], e.timestamp),
    ensures
        withdraw_funds_result(e, campaign_id) is Err,
{
}

/// A contributor is refunded at most once: after a refund, the next claim is
/// refused with `NoFundsToWithdraw`.
pub proof fn lemma_refund_only_once(e: EnvView, campaign_id: u32, contributor: String)
    requires
        claim_refund_result(e, campaign_id, contributor) is Ok,
    ensures
        claim_refund_result(claim_refund_post(e, campaign_id, contributor), campaign_id, contributor) == Err::<(), Error>(
            Error::NoFundsToWithdraw,
        ),
{
}

/// Cancelling a campaign stops contributions and lets contributors claim refunds.
pub proof fn lemma_cancelled_campaign_takes_no_contributions(
    e: EnvView,
    campaign_id: u32,
    contributor: String,
    amount: i128,
)
    requires
        cancel_campaign_result(e, campaign_id) is Ok,
        amount > 0,
    ensures
        contribute_result(cancel_campaign_post(e, campaign_id), campaign_id, contributor, amount) == Err::<(), Error>(
            Error::CampaignNotActive,
        ),
        crate::contract::refundable(
            cancel_campaign_post(e, campaign_id).storage.campaigns[campaign_id],
            e.timestamp,
        ),
{
}

/// Once a campaign has raised anything, its title can no longer be changed.
pub proof fn lemma_contribution_locks_title(
    e: EnvView,
    campaign_id: u32,
    contributor: String,
    amount: i128,
    title: String,
    description: String,
)
    requires
        store_wf(e.storage),
        contribute_result(e, campaign_id, contributor, amount) is Ok,
        contribute_fits(e, campaign_id, contributor, amount),
    ensures
        update_campaign_result(contribute_post(e, campaign_id, contributor, amount), campaign_id, title, description)
            == Err::<(), Error>(Error::ValidationFailed),
{
    assert(e.storage.campaigns.contains_key(campaign_id));
}

/// Each account votes at most once on a campaign: after a vote, the same
/// voter is refused with `AlreadyVoted`; the vote adds one to exactly one
/// of the two counts.
pub proof fn lemma_vote_only_once(e: EnvView, campaign_id: u32, voter: String, approve: bool)
    requires
        cast_vote_result(e, campaign_id, voter) is Ok,
        cast_vote_fits(e, campaign_id, approve),
    ensures
        cast_vote_result(cast_vote_post(e, campaign_id, voter, approve), campaign_id, voter) == Err::<(), Error>(
            Error::AlreadyVoted,
        ),
        ({
            let t = cast_vote_post(e, campaign_id, voter, approve).storage;
            &&& t.approvals(campaign_id) == e.storage.approvals(campaign_id) + (if approve { 1int } else { 0 })
            &&& t.rejections(campaign_id) == e.storage.rejections(campaign_id) + (if approve { 0int } else { 1 })
        }),
{
}

/// Verification is final: once verified, by the admin or by vote, a campaign
/// takes no votes and cannot be verified again.
pub proof fn lemma_verification_is_final(e: EnvView, campaign_id: u32, by_vote: bool)
    requires
        if by_vote {
            verify_with_votes_result(e, campaign_id) is Ok
        } else {
            admin_verify_result(e, campaign_id) is Ok
        },
    ensures
        ({
            let t = if by_vote { verify_with_votes_post(e, campaign_id) } else { admin_verify_post(e, campaign_id) };
            &&& t.storage.campaigns[campaign_id].is_verified
            &&& vote_target_result(t, campaign_id) == Err::<(), Error>(Error::CampaignAlreadyVerified)
            &&& admin_verify_result(t, campaign_id) == Err::<(), Error>(Error::CampaignAlreadyVerified)
            &&& verify_with_votes_result(t, campaign_id) == Err::<(), Error>(Error::CampaignAlreadyVerified)
        }),
{
}

/// A contributor's claim brings what they claimed up to exactly what they
/// are due; until more revenue arrives, a second claim is refused with
/// `NoFundsToWithdraw`.
pub proof fn lemma_revenue_claim_only_once(e: EnvView, campaign_id: u32, contributor: String)
    requires
        claim_revenue_result(e, campaign_id, contributor) is Ok,
        claim_revenue_fits(e, campaign_id, contributor),
    ensures
        claim_revenue_post(e, campaign_id, contributor).storage.claimed(campaign_id, contributor@) == revenue_due(
            e,
            campaign_id,
            contributor@,
        ),
        claim_revenue_result(claim_revenue_post(e, campaign_id, contributor), campaign_id, contributor)
            == Err::<(), Error>(Error::NoFundsToWithdraw),
{
    let c = e.storage.campaigns[campaign_id];
    crate::revenue::lemma_tdiv_fits(
        e.storage.contribution(campaign_id, contributor@) * crate::contract::campaign_contributor_pool(e, campaign_id),
        c.amount_raised as int,
    );
    let t = claim_revenue_post(e, campaign_id, contributor);
    assert(t.storage.campaigns == e.storage.campaigns);
    assert(t.storage.pool(campaign_id) == e.storage.pool(campaign_id));
    assert(t.storage.contribution(campaign_id, contributor@) == e.storage.contribution(campaign_id, contributor@));
    assert(revenue_due(t, campaign_id, contributor@) == revenue_due(e, campaign_id, contributor@));
}

/// The creator's claim brings what they claimed up to exactly their share;
/// until more revenue arrives, a second claim is refused with `NoFundsToWithdraw`.
pub proof fn lemma_creator_claim_only_once(e: EnvView, campaign_id: u32)
    requires
        claim_creator_revenue_result(e, campaign_id) is Ok,
        claim_creator_revenue_fits(e, campaign_id),
    ensures
        claim_creator_revenue_post(e, campaign_id).storage.creator_claimed(campaign_id) == creator_share_total(
            e,
            campaign_id,
        ),
        claim_creator_revenue_result(claim_creator_revenue_post(e, campaign_id), campaign_id) == Err::<(), Error>(
            Error::NoFundsToWithdraw,
        ),
{
    let t = claim_creator_revenue_post(e, campaign_id);
    assert(t.storage.campaigns == e.storage.campaigns);
    assert(t.storage.pool(campaign_id) == e.storage.pool(campaign_id));
    assert(creator_share_total(t, campaign_id) == creator_share_total(e, campaign_id));
}

/// In well-formed storage, what a contributor is due never exceeds the
/// contributors' pool, which with the creator's share makes up the whole
/// revenue pool, neither part being negative.
pub proof fn lemma_revenue_shares_within_pool(e: EnvView, campaign_id: u32, contributor: Seq<char>)
    requires
        store_wf(e.storage),
        e.storage.campaigns.contains_key(campaign_id),
        e.storage.campaigns[campaign_id].has_revenue_sharing,
        e.storage.campaigns[campaign_id].amount_raised >= 1,
    ensures
        0 <= revenue_due(e, campaign_id, contributor) <= crate::contract::campaign_contributor_pool(e, campaign_id),
        0 <= creator_share_total(e, campaign_id),
        crate::contract::campaign_contributor_pool(e, campaign_id) + creator_share_total(e, campaign_id)
            == e.storage.pool(campaign_id),
{
    let s = e.storage;
    let c = s.campaigns[campaign_id];
    if s.revenue_pool.contains_key(campaign_id) {
        assert(s.revenue_pool[campaign_id] >= 0);
    }
    if s.contributions.contains_key((campaign_id, contributor)) {
        assert(s.contributions[(campaign_id, contributor)] <= s.campaigns[campaign_id].amount_raised);
    }
    crate::revenue::lemma_contributor_pool_within_total(s.pool(campaign_id) as int, c.revenue_share_percentage as int);
    crate::revenue::lemma_due_within_contributor_pool(
        s.contribution(campaign_id, contributor) as int,
        crate::contract::campaign_contributor_pool(e, campaign_id),
        c.amount_raised as int,
    );
}

/// Admin rights pass to the new admin: after a successful hand-over the new
/// admin is stored, and the previous one, if different, is refused.
pub proof fn lemma_admin_hand_over(e: EnvView, admin: String, new_admin: String)
    requires
        e.storage.admin is Some,
        update_admin_result(e, admin) is Ok,
        admin@ != new_admin@,
    ensures
        update_admin_post(e, new_admin).storage.admin == Some(new_admin),
        update_admin_result(update_admin_post(e, new_admin), admin) == Err::<(), Error>(Error::NotAuthorized),
{
}


/// Who may act.  Every call records the one account whose authorization it
/// requires, and leaves the rest of the environment as its effect alone
/// leaves it.  A campaign is created by its creator, a contribution or a
/// refund is asked for by the contributor, and a vote by the voter.  Every
/// change that withdrawing, cancelling, updating, depositing revenue to, or
/// claiming the creator's revenue of a stored campaign makes is authorized by
/// that campaign's creator.  Every change that initializing, verifying,
/// setting the fee or the voting parameters, or handing over admin rights
/// makes is authorized by the admin in office (for `init`, the new admin).
/// Only a contributor's revenue claim and the tally of votes need no
/// authorization.
pub proof fn lemma_who_may_act(e: EnvView, call: Call)
    ensures
        after(e, call) == (EnvView { auths: after(e, call).auths, ..effect(e, call) }),
        after(e, call).auths == (match call_auth(e, call) {
            Some(a) => e.auths.push(a),
            None => e.auths,
        }),
        match call {
            Call::Init { admin, .. } => effect(e, call).storage != e.storage ==> call_auth(e, call) == Some(admin),
            Call::CreateCampaign { creator, .. } => call_auth(e, call) == Some(creator),
            Call::Contribute { contributor, .. } => call_auth(e, call) == Some(contributor),
            Call::ClaimRefund { contributor, .. } => call_auth(e, call) == Some(contributor),
            Call::VoteOnCampaign { voter, .. } => call_auth(e, call) == Some(voter),
            Call::WithdrawFunds { campaign_id }
            | Call::CancelCampaign { campaign_id }
            | Call::UpdateCampaign { campaign_id, .. }
            | Call::UpdateCampaignDescription { campaign_id, .. }
            | Call::DepositRevenue { campaign_id, .. }
            | Call::ClaimCreatorRevenue { campaign_id } => effect(e, call) != e ==> {
                &&& e.storage.campaigns.contains_key(campaign_id)
                &&& call_auth(e, call) == Some(e.storage.campaigns[campaign_id].creator)
            },
            Call::VerifyCampaign { .. } | Call::UpdatePlatformFee { .. } => call_auth(e, call) == Some(
                e.storage.admin->0,
            ),
            Call::SetVotingParams { admin, .. } | Call::UpdateAdmin { admin, .. } => {
                &&& call_auth(e, call) == Some(admin)
                &&& effect(e, call) != e ==> admin@ == e.storage.admin->0@
            },
            Call::ClaimRevenue { .. } | Call::VerifyCampaignWithVotes { .. } => call_auth(e, call) is None,
        },
{
}

} // verus!
