//! Properties of the contract over any sequence of calls.
use vstd::prelude::*;

use crate::contract::{
    claim_creator_revenue_fits, claim_creator_revenue_post, claim_creator_revenue_result, claim_refund_result,
    creator_share_total, withdraw_funds_fits, withdraw_funds_result,
};
use crate::env::EnvView;
use crate::errors::Error;
use crate::laws::{after, call_admissible, lemma_every_call_keeps_store_wf, store_wf, Call};
use crate::types::Campaign;

verus! {

/// The environment after the calls, made one after another.
pub open spec fn run(e: EnvView, calls: Seq<Call>) -> EnvView
    decreases calls.len(),
{
    if calls.len() == 0 {
        e
    } else {
        after(run(e, calls.drop_last()), calls.last())
    }
}

/// A call that may be made: its operation's `requires` holds, and it is not
/// the first `init` of a contract in which campaigns were created before it.
pub open spec fn step_allowed(e: EnvView, call: Call) -> bool {
    &&& call_admissible(e, call)
    &&& (call is Init && e.storage.admin is None) ==> e.storage.campaigns.dom() == Set::<u32>::empty()
}

/// Calls each of which may be made where it is made.
pub open spec fn valid_run(e: EnvView, calls: Seq<Call>) -> bool
    decreases calls.len(),
{
    calls.len() == 0 || (valid_run(e, calls.drop_last()) && step_allowed(run(e, calls.drop_last()), calls.last()))
}

/// Storage stays well formed over any calls that may be made.
pub proof fn lemma_run_keeps_store_wf(e: EnvView, calls: Seq<Call>)
    requires
        store_wf(e.storage),
        valid_run(e, calls),
    ensures
        store_wf(run(e, calls).storage),
    decreases calls.len(),
{
    if calls.len() > 0 {
        lemma_run_keeps_store_wf(e, calls.drop_last());
        lemma_every_call_keeps_store_wf(run(e, calls.drop_last()), calls.last());
    }
}

/// `c` with at most its verified mark changed from `c0`.
pub open spec fn same_but_verified(c: Campaign, c0: Campaign) -> bool {
    c == Campaign { is_verified: c.is_verified, ..c0 }
}

/// A campaign whose funds were withdrawn keeps its record, but for its
/// verified mark, through any call.
pub(crate) proof fn lemma_step_keeps_withdrawn(e: EnvView, call: Call, id: u32)
    requires
        store_wf(e.storage),
        step_allowed(e, call),
        e.storage.campaigns.contains_key(id),
        e.storage.campaigns[id].funds_withdrawn,
    ensures
        after(e, call).storage.campaigns.contains_key(id),
        same_but_verified(after(e, call).storage.campaigns[id], e.storage.campaigns[id]),
{
    let c = e.storage.campaigns[id];
    assert(c.id == id);
    match call {
        Call::Init { .. } => {
            if e.storage.admin is None {
                assert(e.storage.campaigns.dom().contains(id));
            }
        },
        _ => {},
    }
}

/// A campaign whose funds were withdrawn keeps its record, but for its
/// verified mark, through any calls that may be made.
pub proof fn lemma_withdrawn_campaign_stays_withdrawn(e: EnvView, calls: Seq<Call>, id: u32)
    requires
        store_wf(e.storage),
        valid_run(e, calls),
        e.storage.campaigns.contains_key(id),
        e.storage.campaigns[id].funds_withdrawn,
    ensures
        run(e, calls).storage.campaigns.contains_key(id),
        same_but_verified(run(e, calls).storage.campaigns[id], e.storage.campaigns[id]),
    decreases calls.len(),
{
    if calls.len() > 0 {
        let prefix = calls.drop_last();
        lemma_withdrawn_campaign_stays_withdrawn(e, prefix, id);
        lemma_run_keeps_store_wf(e, prefix);
        lemma_step_keeps_withdrawn(run(e, prefix), calls.last(), id);
    }
}

/// A campaign pays out once: after a successful withdrawal, whatever calls
/// follow, a further withdrawal is refused with `FundsAlreadyWithdrawn` and
/// a refund to anyone with `ValidationFailed`, neither changing storage or
/// moving tokens.
pub proof fn lemma_campaign_pays_out_once(e: EnvView, campaign_id: u32, calls: Seq<Call>, contributor: String)
    requires
        store_wf(e.storage),
        withdraw_funds_result(e, campaign_id) is Ok,
        withdraw_funds_fits(e, campaign_id),
        valid_run(after(e, Call::WithdrawFunds { campaign_id }), calls),
    ensures
        ({
            let r = run(after(e, Call::WithdrawFunds { campaign_id }), calls);
            &&& withdraw_funds_result(r, campaign_id) == Err::<(), Error>(Error::FundsAlreadyWithdrawn)
            &&& claim_refund_result(r, campaign_id, contributor) == Err::<(), Error>(Error::ValidationFailed)
            &&& after(r, Call::WithdrawFunds { campaign_id }).storage == r.storage
            &&& after(r, Call::WithdrawFunds { campaign_id }).transfers == r.transfers
            &&& after(r, Call::ClaimRefund { campaign_id, contributor }).storage == r.storage
            &&& after(r, Call::ClaimRefund { campaign_id, contributor }).transfers == r.transfers
        }),
{
    let w = Call::WithdrawFunds { campaign_id };
    let e1 = after(e, w);
    lemma_every_call_keeps_store_wf(e, w);
    lemma_withdrawn_campaign_stays_withdrawn(e1, calls, campaign_id);
    lemma_run_keeps_store_wf(e1, calls);
    let r = run(e1, calls);
    assert(r.storage.campaigns.contains_key(campaign_id));
}


/// The creator has claimed all of a revenue-sharing campaign's share so far.
pub open spec fn creator_settled(e: EnvView, id: u32) -> bool {
    &&& e.storage.campaigns.contains_key(id)
    &&& e.storage.campaigns[id].has_revenue_sharing
    &&& e.storage.creator_claimed(id) == creator_share_total(e, id)
}

/// Whether the call deposits revenue to the campaign.
pub open spec fn deposits_to(call: Call, id: u32) -> bool {
    call matches Call::DepositRevenue { campaign_id, .. } && campaign_id == id
}

#[verifier::spinoff_prover]
#[verifier::rlimit(40)]
proof fn lemma_step_keeps_creator_settled(e: EnvView, call: Call, id: u32)
    requires
        store_wf(e.storage),
        step_allowed(e, call),
        creator_settled(e, id),
        !deposits_to(call, id),
    ensures
        creator_settled(after(e, call), id),
{
    let s = e.storage;
    let c = s.campaigns[id];
    let t = after(e, call).storage;
    assert(c.id == id);
    match call {
        Call::Init { .. } => {
            if s.admin is None {
                assert(s.campaigns.dom().contains(id));
            }
        },
        Call::ClaimCreatorRevenue { campaign_id } => {
            if campaign_id == id {
                assert(claim_creator_revenue_result(e, id) is Err);
            }
        },
        _ => {},
    }
    assert(t.campaigns.contains_key(id));
    assert(t.campaigns[id].has_revenue_sharing == c.has_revenue_sharing);
    assert(t.campaigns[id].revenue_share_percentage == c.revenue_share_percentage);
    assert(t.pool(id) == s.pool(id));
    assert(t.creator_claimed(id) == s.creator_claimed(id));
}

proof fn lemma_run_keeps_creator_settled(e: EnvView, calls: Seq<Call>, id: u32)
    requires
        store_wf(e.storage),
        valid_run(e, calls),
        creator_settled(e, id),
        forall|i: int| 0 <= i < calls.len() ==> !deposits_to(#[trigger] calls[i], id),
    ensures
        creator_settled(run(e, calls), id),
    decreases calls.len(),
{
    if calls.len() > 0 {
        let prefix = calls.drop_last();
        assert forall|i: int| 0 <= i < prefix.len() implies !deposits_to(#[trigger] prefix[i], id) by {
            assert(prefix[i] == calls[i]);
        }
        lemma_run_keeps_creator_settled(e, prefix, id);
        lemma_run_keeps_store_wf(e, prefix);
        assert(!deposits_to(calls[calls.len() - 1], id));
        lemma_step_keeps_creator_settled(run(e, prefix), calls.last(), id);
    }
}

/// The creator is paid their share once: after a successful claim of the
/// creator's revenue, whatever calls follow that deposit no revenue to the
/// campaign, a further claim is refused with `NoFundsToWithdraw`, changing
/// no storage and moving no tokens.
pub proof fn lemma_creator_paid_once_per_deposit(e: EnvView, campaign_id: u32, calls: Seq<Call>)
    requires
        store_wf(e.storage),
        claim_creator_revenue_result(e, campaign_id) is Ok,
        claim_creator_revenue_fits(e, campaign_id),
        valid_run(after(e, Call::ClaimCreatorRevenue { campaign_id }), calls),
        forall|i: int| 0 <= i < calls.len() ==> !deposits_to(#[trigger] calls[i], campaign_id),
    ensures
        ({
            let r = run(after(e, Call::ClaimCreatorRevenue { campaign_id }), calls);
            &&& claim_creator_revenue_result(r, campaign_id) == Err::<(), Error>(Error::NoFundsToWithdraw)
            &&& after(r, Call::ClaimCreatorRevenue { campaign_id }).storage == r.storage
            &&& after(r, Call::ClaimCreatorRevenue { campaign_id }).transfers == r.transfers
        }),
{
    let k = Call::ClaimCreatorRevenue { campaign_id };
    let e1 = after(e, k);
    lemma_every_call_keeps_store_wf(e, k);
    assert(e1.storage == claim_creator_revenue_post(e, campaign_id).storage);
    assert(creator_share_total(e1, campaign_id) == creator_share_total(e, campaign_id));
    lemma_run_keeps_creator_settled(e1, calls, campaign_id);
}

} // verus!
