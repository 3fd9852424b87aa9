//! When each operation succeeds and what it then does, stated directly in
//! terms of the stored campaign, the ledger time and the call's arguments.
use vstd::prelude::*;

use crate::contract::{
    byte_len, contribute_fits, create_campaign_fits, deposit_revenue_fits, claim_creator_revenue_post, claim_creator_revenue_result, claim_revenue_post, claim_revenue_result,
    contribute_post, contribute_result, update_admin_post, update_admin_result, update_platform_fee_post, cancel_campaign_post, cancel_campaign_result, claim_refund_post, claim_refund_result,
    create_campaign_result, deposit_revenue_post, deposit_revenue_result, init_post, init_result,
    update_campaign_description_post, update_campaign_description_result, update_campaign_post,
    update_campaign_result, withdraw_funds_fits, withdraw_funds_post, withdraw_funds_result,
};
use crate::env::EnvView;
use crate::errors::Error;
use crate::revenue::{spec_contributor_due, spec_contributor_pool};
use crate::storage::setting_or;
use crate::types::{Campaign, Category, Party};
use crate::voting::{
    admin_verify_post, admin_verify_result, cast_vote_fits, cast_vote_post, cast_vote_result, set_params_post, set_params_result,
    verify_with_votes_result, DEFAULT_APPROVAL_THRESHOLD_BPS, DEFAULT_MIN_VOTES_QUORUM,
};

verus! {

/// `init` succeeds exactly on a contract without an admin, and then installs
/// the admin and token, the fee capped at 10%, no campaigns, version 1, and
/// the default quorum of 3 votes and threshold of 6000 basis points.
pub proof fn lemma_init_outcome(e: EnvView, admin: String, token: String, platform_fee: u32)
    ensures
        (init_result(e) is Ok) == (e.storage.admin is None),
        init_result(e) is Err ==> init_result(e) == Err::<(), Error>(Error::AlreadyInitialized),
        ({
            let s = init_post(e, admin, token, platform_fee).storage;
            &&& s.admin == Some(admin)
            &&& s.token == Some(token)
            &&& s.platform_fee == Some(if platform_fee > 1000 { 1000u32 } else { platform_fee })
            &&& s.campaign_count == Some(0u32)
            &&& s.version == Some(1u32)
            &&& s.min_votes_quorum == Some(3u32)
            &&& s.approval_threshold_bps == Some(6000u32)
            &&& s.campaigns == e.storage.campaigns
        }),
{
}

/// `create_campaign` succeeds exactly when the goal is positive, the
/// duration 1–365 days, the title 1–100 bytes, the description 1–1000 bytes,
/// and revenue is shared only by an `EducationalStartup` at 1–5000 basis
/// points; it then returns one more than the number of campaigns.
pub proof fn lemma_create_campaign_outcome(
    e: EnvView,
    title: String,
    description: String,
    funding_goal: i128,
    duration_days: u64,
    category: Category,
    has_revenue_sharing: bool,
    revenue_share_percentage: u32,
)
    ensures
        (create_campaign_result(e, title, description, funding_goal, duration_days, category, has_revenue_sharing,
            revenue_share_percentage) is Ok) == {
            &&& funding_goal > 0
            &&& 1 <= duration_days <= 365
            &&& 1 <= byte_len(title) <= 100
            &&& 1 <= byte_len(description) <= 1000
            &&& has_revenue_sharing ==> category == Category::EducationalStartup
            &&& has_revenue_sharing ==> 1 <= revenue_share_percentage <= 5000
        },
        create_campaign_result(e, title, description, funding_goal, duration_days, category, has_revenue_sharing,
            revenue_share_percentage) is Ok && setting_or(e.storage.campaign_count, 0) < 4294967295u32
            ==> create_campaign_result(e, title, description, funding_goal,
            duration_days, category, has_revenue_sharing, revenue_share_percentage)->Ok_0 == setting_or(
            e.storage.campaign_count,
            0,
        ) + 1,
{
}

/// A funded campaign can always be withdrawn: a stored campaign that is not
/// cancelled, not yet withdrawn, and has raised a non-zero amount of at least
/// its goal is withdrawn successfully whatever the ledger time, paying out
/// everything it raised and ending withdrawn and inactive with all else kept.
/// A campaign short of its goal is never withdrawn.
pub proof fn lemma_funded_campaign_is_withdrawn(e: EnvView, campaign_id: u32)
    requires
        e.storage.campaigns.contains_key(campaign_id),
    ensures
        ({
            let c = e.storage.campaigns[campaign_id];
            let funded = !c.is_cancelled && !c.funds_withdrawn && c.amount_raised != 0 && c.amount_raised
                >= c.funding_goal;
            &&& (withdraw_funds_result(e, campaign_id) is Ok) == funded
            &&& c.amount_raised < c.funding_goal ==> withdraw_funds_result(e, campaign_id) is Err
            &&& funded && withdraw_funds_fits(e, campaign_id) ==> {
                let t = withdraw_funds_post(e, campaign_id);
                &&& t.storage.campaigns[campaign_id] == Campaign { funds_withdrawn: true, is_active: false, ..c }
                &&& t.transfers.len() == e.transfers.len() + 2
                &&& t.transfers[t.transfers.len() - 1].to == Party::Account(c.creator)
                &&& t.transfers[t.transfers.len() - 2].to == Party::Admin
                &&& t.transfers[t.transfers.len() - 2].amount + t.transfers[t.transfers.len() - 1].amount
                    == c.amount_raised
                &&& c.amount_raised > 0 ==> t.transfers[t.transfers.len() - 2].amount == (c.amount_raised * (
                if e.storage.platform_fee is Some {
                    e.storage.platform_fee->0
                } else {
                    300u32
                })) / 10000
            }
        }),
{
    let c = e.storage.campaigns[campaign_id];
    if withdraw_funds_fits(e, campaign_id) {
        crate::revenue::lemma_tdiv_fits(c.amount_raised * e.storage.platform_fee_value(), 10000);
    }
}

/// Withdrawal does not depend on the ledger time once the goal is met: two
/// environments that differ only in their time give the same result.
pub proof fn lemma_funded_withdrawal_ignores_time(e: EnvView, campaign_id: u32, later: u64)
    requires
        e.storage.campaigns.contains_key(campaign_id),
        e.storage.campaigns[campaign_id].amount_raised >= e.storage.campaigns[campaign_id].funding_goal,
    ensures
        withdraw_funds_result(EnvView { timestamp: later, ..e }, campaign_id) == withdraw_funds_result(e, campaign_id),
{
    let e2 = EnvView { timestamp: later, ..e };
    assert(e2.storage == e.storage);
}

/// A campaign can be cancelled exactly while its funds have not been
/// withdrawn, whatever it raised and whatever the time; it then ends
/// cancelled and inactive with all else kept.
pub proof fn lemma_cancel_campaign_outcome(e: EnvView, campaign_id: u32)
    requires
        e.storage.campaigns.contains_key(campaign_id),
    ensures
        ({
            let c = e.storage.campaigns[campaign_id];
            &&& (cancel_campaign_result(e, campaign_id) is Ok) == !c.funds_withdrawn
            &&& !c.funds_withdrawn ==> cancel_campaign_post(e, campaign_id).storage.campaigns[campaign_id] == Campaign {
                is_cancelled: true,
                is_active: false,
                ..c
            }
        }),
{
}

/// A contributor is refunded exactly when the campaign is cancelled, or its
/// deadline has passed short of its goal, and they have a contribution to
/// take back: they then get all of it back and their contribution is zero.
/// A cancelled campaign refunds whatever it raised.
pub proof fn lemma_refund_outcome(e: EnvView, campaign_id: u32, contributor: String)
    requires
        e.storage.campaigns.contains_key(campaign_id),
    ensures
        ({
            let c = e.storage.campaigns[campaign_id];
            let open = c.is_cancelled || (e.timestamp > c.deadline && c.amount_raised < c.funding_goal);
            let amount = e.storage.contribution(campaign_id, contributor@);
            &&& (claim_refund_result(e, campaign_id, contributor) == Err::<(), Error>(Error::ValidationFailed))
                == !open
            &&& (claim_refund_result(e, campaign_id, contributor) is Ok) == (open && amount != 0)
            &&& c.is_cancelled && amount != 0 ==> claim_refund_result(e, campaign_id, contributor) is Ok
            &&& (open && amount != 0) ==> {
                let t = claim_refund_post(e, campaign_id, contributor);
                &&& t.storage.contribution(campaign_id, contributor@) == 0
                &&& t.transfers == e.transfers.push(
                    crate::types::Transfer { from: Party::Contract, to: Party::Account(contributor), amount },
                )
                &&& t.storage.campaigns == e.storage.campaigns
            }
        }),
{
}

/// The title and description can be changed exactly on an active campaign
/// that has raised nothing, to a title of 1–100 bytes and a description of
/// 1–1000 bytes; the campaign then holds them with all else kept.
pub proof fn lemma_update_campaign_outcome(e: EnvView, campaign_id: u32, title: String, description: String)
    requires
        e.storage.campaigns.contains_key(campaign_id),
    ensures
        ({
            let c = e.storage.campaigns[campaign_id];
            let ok = c.amount_raised <= 0 && c.is_active && !c.is_cancelled && 1 <= byte_len(title) <= 100 && 1
                <= byte_len(description) <= 1000;
            &&& (update_campaign_result(e, campaign_id, title, description) is Ok) == ok
            &&& ok ==> update_campaign_post(e, campaign_id, title, description).storage.campaigns[campaign_id]
                == Campaign { title, description, ..c }
        }),
{
}

/// The description can be changed exactly on an active campaign, whatever
/// it raised, to one of 1–1000 bytes; the campaign then holds it with all
/// else kept.
pub proof fn lemma_update_description_outcome(e: EnvView, campaign_id: u32, description: String)
    requires
        e.storage.campaigns.contains_key(campaign_id),
    ensures
        ({
            let c = e.storage.campaigns[campaign_id];
            let ok = c.is_active && !c.is_cancelled && 1 <= byte_len(description) <= 1000;
            &&& (update_campaign_description_result(e, campaign_id, description) is Ok) == ok
            &&& ok ==> update_campaign_description_post(e, campaign_id, description).storage.campaigns[campaign_id]
                == Campaign { description, ..c }
        }),
{
}

/// Revenue can be deposited exactly to a revenue-sharing campaign, in a
/// positive amount, whatever its state otherwise; the pool then grows by
/// that amount, moved from the creator to the contract.
pub proof fn lemma_deposit_revenue_outcome(e: EnvView, campaign_id: u32, amount: i128)
    requires
        e.storage.campaigns.contains_key(campaign_id),
    ensures
        ({
            let c = e.storage.campaigns[campaign_id];
            let ok = amount > 0 && c.has_revenue_sharing;
            &&& (deposit_revenue_result(e, campaign_id, amount) is Ok) == ok
            &&& ok && e.storage.pool(campaign_id) + amount <= i128::MAX ==> {
                let t = deposit_revenue_post(e, campaign_id, amount);
                &&& t.storage.pool(campaign_id) == e.storage.pool(campaign_id) + amount
                &&& t.transfers == e.transfers.push(
                    crate::types::Transfer { from: Party::Account(c.creator), to: Party::Contract, amount },
                )
            }
        }),
{
}

/// Any token holder who has not voted may vote on a stored campaign that is
/// active, not cancelled and not verified, whatever the ledger time; the
/// vote adds one to the approvals or to the rejections and records the voter.
pub proof fn lemma_vote_outcome(e: EnvView, campaign_id: u32, voter: String, approve: bool)
    requires
        e.storage.campaigns.contains_key(campaign_id),
    ensures
        ({
            let c = e.storage.campaigns[campaign_id];
            let ok = !c.is_verified && c.is_active && !c.is_cancelled && e.balance_of(voter@) > 0
                && !e.storage.voted(campaign_id, voter@);
            &&& (cast_vote_result(e, campaign_id, voter) is Ok) == ok
            &&& ok && (if approve { e.storage.approvals(campaign_id) } else { e.storage.rejections(campaign_id) })
                < 4294967295u32 ==> {
                let t = cast_vote_post(e, campaign_id, voter, approve).storage;
                &&& t.voted(campaign_id, voter@)
                &&& t.approvals(campaign_id) == e.storage.approvals(campaign_id) + (if approve { 1int } else { 0 })
                &&& t.rejections(campaign_id) == e.storage.rejections(campaign_id) + (if approve { 0int } else { 1 })
                &&& t.campaigns == e.storage.campaigns
            }
        }),
{
}

/// Voting does not depend on the ledger time: two environments that differ
/// only in their time give the same result.
pub proof fn lemma_vote_ignores_time(e: EnvView, campaign_id: u32, voter: String, later: u64)
    ensures
        cast_vote_result(EnvView { timestamp: later, ..e }, campaign_id, voter) == cast_vote_result(
            e,
            campaign_id,
            voter,
        ),
{
    let e2 = EnvView { timestamp: later, ..e };
    assert(e2.storage == e.storage);
    assert(e2.balance_of(voter@) == e.balance_of(voter@));
}

/// The admin verifies exactly a stored campaign not verified yet, which then
/// is verified with all else kept.
pub proof fn lemma_admin_verify_outcome(e: EnvView, campaign_id: u32)
    requires
        e.storage.campaigns.contains_key(campaign_id),
    ensures
        ({
            let c = e.storage.campaigns[campaign_id];
            &&& (admin_verify_result(e, campaign_id) is Ok) == !c.is_verified
            &&& !c.is_verified ==> admin_verify_post(e, campaign_id).storage.campaigns[campaign_id] == Campaign {
                is_verified: true,
                ..c
            }
        }),
{
}

/// A tally judges by the stored quorum and threshold (3 votes and 6000 basis
/// points while none were set): a stored campaign not verified yet with at
/// least the quorum of votes is verified exactly when its approvals, in
/// basis points of all votes and rounded down, reach the threshold; with
/// fewer votes it is refused with `VotingQuorumNotMet`.
pub proof fn lemma_tally_outcome(e: EnvView, campaign_id: u32)
    requires
        e.storage.campaigns.contains_key(campaign_id),
        !e.storage.campaigns[campaign_id].is_verified,
    ensures
        ({
            let s = e.storage;
            let yes = s.approvals(campaign_id) as int;
            let total = s.approvals(campaign_id) + s.rejections(campaign_id);
            let quorum = if s.min_votes_quorum is Some { s.min_votes_quorum->0 } else { 3u32 };
            let threshold = if s.approval_threshold_bps is Some { s.approval_threshold_bps->0 } else { 6000u32 };
            &&& total < quorum ==> verify_with_votes_result(e, campaign_id) == Err::<(), Error>(
                Error::VotingQuorumNotMet,
            )
            &&& total >= quorum ==> verify_with_votes_result(e, campaign_id) == (if (yes * 10000) / total
                < threshold {
                Err::<(), Error>(Error::VotingThresholdNotMet)
            } else {
                Ok(())
            })
        }),
{
}

/// The voting parameters the admin sets are the ones a later tally uses:
/// after a successful `set_voting_params(admin, q, t)`, a campaign with at
/// least `q` votes is verified exactly when its approvals reach `t` basis
/// points of its votes.
pub proof fn lemma_tally_uses_parameters_set(
    e: EnvView,
    admin: String,
    min_votes_quorum: u32,
    approval_threshold_bps: u32,
    campaign_id: u32,
)
    requires
        set_params_result(e, admin, min_votes_quorum, approval_threshold_bps) is Ok,
        e.storage.campaigns.contains_key(campaign_id),
        !e.storage.campaigns[campaign_id].is_verified,
    ensures
        ({
            let t = set_params_post(e, min_votes_quorum, approval_threshold_bps);
            let yes = e.storage.approvals(campaign_id) as int;
            let total = e.storage.approvals(campaign_id) + e.storage.rejections(campaign_id);
            &&& 1 <= min_votes_quorum
            &&& 1 <= approval_threshold_bps <= 10000
            &&& admin@ == e.storage.admin->0@
            &&& total < min_votes_quorum ==> verify_with_votes_result(t, campaign_id) == Err::<(), Error>(
                Error::VotingQuorumNotMet,
            )
            &&& total >= min_votes_quorum ==> verify_with_votes_result(t, campaign_id) == (if (yes * 10000) / total
                < approval_threshold_bps {
                Err::<(), Error>(Error::VotingThresholdNotMet)
            } else {
                Ok(())
            })
        }),
{
}


/// A contribution is accepted exactly when its amount is positive and the
/// campaign is stored, active, not cancelled, not the contributor's own, and
/// its deadline has not passed; the amount then moves from the contributor
/// to the contract and is added to both what the campaign raised and what
/// the contributor gave.
pub proof fn lemma_contribute_outcome(e: EnvView, campaign_id: u32, contributor: String, amount: i128)
    ensures
        ({
            let s = e.storage;
            let c = s.campaigns[campaign_id];
            let ok = amount > 0 && s.campaigns.contains_key(campaign_id) && c.is_active && !c.is_cancelled
                && contributor@ != c.creator@ && e.timestamp <= c.deadline;
            &&& (contribute_result(e, campaign_id, contributor, amount) is Ok) == ok
            &&& ok && c.amount_raised + amount <= i128::MAX && s.contribution(campaign_id, contributor@) + amount
                <= i128::MAX ==> {
                let t = contribute_post(e, campaign_id, contributor, amount);
                &&& t.storage.campaigns[campaign_id] == Campaign { amount_raised: (c.amount_raised + amount) as i128, ..c }
                &&& t.storage.contribution(campaign_id, contributor@) == s.contribution(campaign_id, contributor@)
                    + amount
                &&& t.transfers == e.transfers.push(
                    crate::types::Transfer { from: Party::Account(contributor), to: Party::Contract, amount },
                )
            }
        }),
{
}

/// A contributor's revenue claim pays what they are due and have not yet
/// claimed: their contribution's share of the contributors' part of the pool
/// (the pool times the campaign's share in basis points over 10000, rounded
/// toward zero), in proportion to what the campaign raised.  It succeeds
/// exactly on a revenue-sharing campaign, for a contributor, when that
/// amount is positive; what they claimed then equals what they are due.
pub proof fn lemma_claim_revenue_outcome(e: EnvView, campaign_id: u32, contributor: String)
    requires
        e.storage.campaigns.contains_key(campaign_id),
    ensures
        ({
            let s = e.storage;
            let c = s.campaigns[campaign_id];
            let given = s.contribution(campaign_id, contributor@) as int;
            let due = spec_contributor_due(
                given,
                spec_contributor_pool(s.pool(campaign_id) as int, c.revenue_share_percentage as int),
                c.amount_raised as int,
            );
            let claimable = due - s.claimed(campaign_id, contributor@);
            &&& (claim_revenue_result(e, campaign_id, contributor) is Ok) == (c.has_revenue_sharing && given != 0
                && claimable > 0)
            &&& (c.has_revenue_sharing && given != 0 && claimable > 0 && i128::MIN <= due <= i128::MAX) ==> {
                let t = claim_revenue_post(e, campaign_id, contributor);
                &&& t.storage.claimed(campaign_id, contributor@) == due
                &&& t.transfers == e.transfers.push(
                    crate::types::Transfer {
                        from: Party::Contract,
                        to: Party::Account(contributor),
                        amount: claimable as i128,
                    },
                )
            }
        }),
{
}

/// The creator's revenue claim pays their share of the pool (what is left
/// after the contributors' part) not yet claimed; it succeeds exactly on a
/// revenue-sharing campaign when that amount is positive, and what the
/// creator claimed then equals their share.
pub proof fn lemma_claim_creator_revenue_outcome(e: EnvView, campaign_id: u32)
    requires
        e.storage.campaigns.contains_key(campaign_id),
    ensures
        ({
            let s = e.storage;
            let c = s.campaigns[campaign_id];
            let share = s.pool(campaign_id) - spec_contributor_pool(
                s.pool(campaign_id) as int,
                c.revenue_share_percentage as int,
            );
            let claimable = share - s.creator_claimed(campaign_id);
            &&& (claim_creator_revenue_result(e, campaign_id) is Ok) == (c.has_revenue_sharing && claimable > 0)
            &&& (c.has_revenue_sharing && claimable > 0 && i128::MIN <= share <= i128::MAX) ==> {
                let t = claim_creator_revenue_post(e, campaign_id);
                &&& t.storage.creator_claimed(campaign_id) == share
                &&& t.transfers == e.transfers.push(
                    crate::types::Transfer {
                        from: Party::Contract,
                        to: Party::Account(c.creator),
                        amount: claimable as i128,
                    },
                )
            }
        }),
{
}

/// Admin rights are handed over exactly by the admin in office, and then
/// belong to the new admin.
pub proof fn lemma_update_admin_outcome(e: EnvView, admin: String, new_admin: String)
    requires
        e.storage.admin is Some,
    ensures
        (update_admin_result(e, admin) is Ok) == (admin@ == e.storage.admin->0@),
        update_admin_result(e, admin) is Err ==> update_admin_result(e, admin) == Err::<(), Error>(
            Error::NotAuthorized,
        ),
        update_admin_post(e, new_admin).storage.admin == Some(new_admin),
{
}


/// The platform fee is set to what was asked for, capped at 1000 basis
/// points (10%), and the change is announced with the old and the new fee.
pub proof fn lemma_update_platform_fee_outcome(e: EnvView, new_fee: u32)
    ensures
        ({
            let t = update_platform_fee_post(e, new_fee);
            let fee = if new_fee > 1000 { 1000u32 } else { new_fee };
            &&& t.storage.platform_fee == Some(fee)
            &&& t.storage == (crate::storage::StoreView { platform_fee: Some(fee), ..e.storage })
            &&& t.events == e.events.push(
                crate::types::ContractEvent::FeeUpdated {
                    old_fee: if e.storage.platform_fee is Some { e.storage.platform_fee->0 } else { 300u32 },
                    new_fee: fee,
                },
            )
        }),
{
}

/// The voting parameters are set exactly by the admin in office, to a quorum
/// of at least one vote and a threshold of 1–10000 basis points; they are
/// then the ones in force.
pub proof fn lemma_set_voting_params_outcome(e: EnvView, admin: String, min_votes_quorum: u32, approval_threshold_bps: u32)
    ensures
        (set_params_result(e, admin, min_votes_quorum, approval_threshold_bps) is Ok) == (admin@ == e.storage.admin->0@
            && min_votes_quorum >= 1 && 1 <= approval_threshold_bps <= 10000),
        admin@ != e.storage.admin->0@ ==> set_params_result(e, admin, min_votes_quorum, approval_threshold_bps)
            == Err::<(), Error>(Error::NotAuthorized),
        set_params_post(e, min_votes_quorum, approval_threshold_bps).storage.min_votes_quorum == Some(min_votes_quorum),
        set_params_post(e, min_votes_quorum, approval_threshold_bps).storage.approval_threshold_bps == Some(
            approval_threshold_bps,
        ),
{
}


/// The operations ask of their arguments only that their sums fit in
/// machine integers: the campaign count below `u32::MAX` and the deadline
/// within `u64`; raised amounts, contributions and pools within `i128`; vote
/// counts within `u32`.
pub proof fn lemma_requirements_are_machine_limits(
    e: EnvView,
    campaign_id: u32,
    account: String,
    amount: i128,
    duration_days: u64,
    approve: bool,
)
    ensures
        create_campaign_fits(e, duration_days) == (setting_or(e.storage.campaign_count, 0) < 4294967295u32
            && e.timestamp + duration_days * 86400 <= 18446744073709551615u64),
        contribute_fits(e, campaign_id, account, amount) == (e.storage.campaigns[campaign_id].amount_raised + amount
            <= i128::MAX && e.storage.contribution(campaign_id, account@) + amount <= i128::MAX),
        deposit_revenue_fits(e, campaign_id, amount) == (e.storage.pool(campaign_id) + amount <= i128::MAX),
        cast_vote_fits(e, campaign_id, approve) == (if approve {
            e.storage.approvals(campaign_id)
        } else {
            e.storage.rejections(campaign_id)
        } < 4294967295u32),
{
}

} // verus!
