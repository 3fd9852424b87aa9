//! Totals that the contract keeps consistent over any sequence of calls:
//! vote counts, contributions, and revenue paid out.
use vstd::prelude::*;

use crate::env::EnvView;
use crate::contract::{campaign_contributor_pool, creator_share_total, revenue_due};
use crate::history::{lemma_step_keeps_withdrawn, run, step_allowed, valid_run};
use crate::revenue::{lemma_due_grows_with_pool, lemma_shares_grow_with_pool, lemma_tdiv_fits};
use crate::laws::{after, store_wf, Call};
use crate::storage::{stored_or, Store, StoreView};
use crate::sums::{
    lemma_sum_congr, lemma_sum_insert, lemma_sum_mono, lemma_sum_scale, lemma_sum_superset, lemma_sum_update,
    lemma_sum_zero, scaled, sum_of,
};

verus! {

/// The (campaign, voter) entries recorded as votes on a campaign.
pub open spec fn voters(s: StoreView, id: u32) -> Set<(u32, Seq<char>)> {
    Set::new(|k: (u32, Seq<char>)| s.has_voted.contains_key(k) && k.0 == id && s.has_voted[k])
}

/// Every campaign's approvals and rejections together number the accounts
/// recorded as having voted on it.
pub open spec fn votes_match_voters(s: StoreView) -> bool {
    &&& s.has_voted.dom().finite()
    &&& forall|id: u32| #[trigger] voters(s, id).len() == s.approvals(id) + s.rejections(id)
}

proof fn lemma_voters_finite(s: StoreView, id: u32)
    requires
        s.has_voted.dom().finite(),
    ensures
        voters(s, id).finite(),
{
    vstd::set_lib::lemma_len_subset(voters(s, id), s.has_voted.dom());
}

/// Nothing has been voted in empty storage.
pub proof fn lemma_fresh_votes_match_voters()
    ensures
        votes_match_voters(Store::new_view()),
{
    let s = Store::new_view();
    assert forall|id: u32| #[trigger] voters(s, id).len() == s.approvals(id) + s.rejections(id) by {
        assert(voters(s, id) =~= Set::empty());
    }
}

/// Votes always number the voters: every call keeps each campaign's
/// approvals plus rejections equal to the number of accounts recorded as
/// having voted on it, and a vote, once recorded, stays recorded.
pub proof fn lemma_every_call_keeps_votes_match_voters(e: EnvView, call: Call)
    requires
        votes_match_voters(e.storage),
        step_allowed(e, call),
    ensures
        votes_match_voters(after(e, call).storage),
        forall|id: u32, v: Seq<char>| e.storage.voted(id, v) ==> #[trigger] after(e, call).storage.voted(id, v),
{
    let s = e.storage;
    let t = after(e, call).storage;
    if t.has_voted == s.has_voted && t.approve_votes == s.approve_votes && t.reject_votes == s.reject_votes {
        assert forall|id: u32| #[trigger] voters(t, id).len() == t.approvals(id) + t.rejections(id) by {
            assert(voters(t, id) =~= voters(s, id));
        }
    } else {
        match call {
            Call::VoteOnCampaign { campaign_id, voter, approve } => {
                let k = (campaign_id, voter@);
                assert(!s.voted(campaign_id, voter@));
                assert forall|id: u32| #[trigger] voters(t, id).len() == t.approvals(id) + t.rejections(id) by {
                    lemma_voters_finite(s, id);
                    if id == campaign_id {
                        assert(voters(t, id) =~= voters(s, id).insert(k));
                        assert(!voters(s, id).contains(k));
                    } else {
                        assert(voters(t, id) =~= voters(s, id));
                    }
                }
            },
            _ => {
                assert(false);
            },
        }
    }
}


/// A campaign's entry in a table keyed by (campaign, account), as a term of
/// the campaign's total; 0 for the other campaigns' entries.
pub open spec fn table_term(m: Map<(u32, Seq<char>), i128>, id: u32) -> spec_fn((u32, Seq<char>)) -> int {
    |k: (u32, Seq<char>)| if k.0 == id { stored_or(m, k, 0) as int } else { 0 }
}

/// The total of a campaign's entries in a table keyed by (campaign, account).
pub open spec fn table_total(m: Map<(u32, Seq<char>), i128>, id: u32) -> int {
    sum_of(m.dom(), table_term(m, id))
}

/// Writing one entry changes a campaign's total by that entry's change.
pub proof fn lemma_table_total_insert(m: Map<(u32, Seq<char>), i128>, k: (u32, Seq<char>), v: i128, id: u32)
    requires
        m.dom().finite(),
    ensures
        table_total(m.insert(k, v), id) == table_total(m, id) - (if k.0 == id { stored_or(m, k, 0) as int } else { 0 })
            + (if k.0 == id { v as int } else { 0 }),
{
    let m2 = m.insert(k, v);
    let f = table_term(m, id);
    let g = table_term(m2, id);
    if m.contains_key(k) {
        assert(m2.dom() =~= m.dom());
        lemma_sum_update(m.dom(), f, g, k);
    } else {
        assert(m2.dom() =~= m.dom().insert(k));
        lemma_sum_insert(m.dom(), g, k);
        lemma_sum_congr(m.dom(), g, f);
    }
}

/// What was contributed to a campaign, over all contributors.
pub open spec fn contributed(s: StoreView, id: u32) -> int {
    table_total(s.contributions, id)
}

/// Each campaign's contributions add up to no more than it raised.
pub open spec fn contributions_within_raised(s: StoreView) -> bool {
    &&& s.contributions.dom().finite()
    &&& forall|id: u32| #[trigger] s.campaigns.contains_key(id) ==> contributed(s, id) <= s.campaigns[id].amount_raised
}

/// Nothing has been contributed in empty storage.
pub proof fn lemma_fresh_contributions_within_raised()
    ensures
        contributions_within_raised(Store::new_view()),
{
}

/// A campaign that is not stored has no contributions in well-formed storage.
proof fn lemma_unknown_campaign_has_no_contributions(s: StoreView, id: u32)
    requires
        store_wf(s),
        s.contributions.dom().finite(),
        !s.campaigns.contains_key(id),
    ensures
        contributed(s, id) == 0,
{
    assert forall|k: (u32, Seq<char>)| s.contributions.dom().contains(k) implies table_term(s.contributions, id)(k) == 0 by {
        assert(s.campaigns.contains_key(k.0));
    }
    lemma_sum_zero(s.contributions.dom(), table_term(s.contributions, id));
}

/// Contributions never exceed what was raised: every call keeps each
/// campaign's contributions, over all contributors, within the amount it raised.
#[verifier::spinoff_prover]
#[verifier::rlimit(40)]
pub proof fn lemma_every_call_keeps_contributions_within_raised(e: EnvView, call: Call)
    requires
        store_wf(e.storage),
        contributions_within_raised(e.storage),
        step_allowed(e, call),
    ensures
        contributions_within_raised(after(e, call).storage),
{
    let s = e.storage;
    let t = after(e, call).storage;
    let same_raised = forall|id: u32| #[trigger] t.campaigns.contains_key(id) ==> s.campaigns.contains_key(id)
        && t.campaigns[id].amount_raised == s.campaigns[id].amount_raised;
    match call {
        Call::Init { .. } => {
            if s.admin is None {
                assert forall|id: u32| #[trigger] t.campaigns.contains_key(id) implies false by {
                    assert(s.campaigns.dom().contains(id));
                }
            }
        },
        Call::CreateCampaign { .. } => {
            if t.campaigns != s.campaigns {
                let n = (s.campaign_count_value() + 1) as u32;
                assert(!s.campaigns.contains_key(n)) by {
                    if s.campaigns.contains_key(n) {
                        assert(s.campaigns[n].id == n);
                    }
                }
                lemma_unknown_campaign_has_no_contributions(s, n);
                assert(t.contributions == s.contributions);
            }
        },
        Call::Contribute { campaign_id, contributor, amount } => {
            if t != s {
                let k = (campaign_id, contributor@);
                assert forall|id: u32| #[trigger] t.campaigns.contains_key(id) implies contributed(t, id)
                    <= t.campaigns[id].amount_raised by {
                    lemma_table_total_insert(s.contributions, k, t.contributions[k], id);
                }
            }
        },
        Call::ClaimRefund { campaign_id, contributor } => {
            if t != s {
                let k = (campaign_id, contributor@);
                assert(s.contributions.contains_key(k));
                assert forall|id: u32| #[trigger] t.campaigns.contains_key(id) implies contributed(t, id)
                    <= t.campaigns[id].amount_raised by {
                    lemma_table_total_insert(s.contributions, k, 0, id);
                }
            }
        },
        _ => {
            assert(same_raised);
            assert(t.contributions == s.contributions);
        },
    }
}


/// A withdrawn revenue-sharing campaign in which no one has claimed more
/// than they are due: each contributor at most their part of the
/// contributors' pool, the creator at most their share.
pub open spec fn claims_within_dues(e: EnvView, id: u32) -> bool {
    let s = e.storage;
    &&& s.campaigns.contains_key(id)
    &&& s.campaigns[id].funds_withdrawn
    &&& s.campaigns[id].has_revenue_sharing
    &&& s.revenue_claimed.dom().finite()
    &&& forall|a: Seq<char>| #[trigger] s.claimed(id, a) <= revenue_due(e, id, a)
    &&& s.creator_claimed(id) <= creator_share_total(e, id)
}

/// What the contributors of a campaign have claimed of its revenue, together.
pub open spec fn claimed_total(s: StoreView, id: u32) -> int {
    table_total(s.revenue_claimed, id)
}

/// Once a revenue-sharing campaign's funds are withdrawn, and before anyone
/// claims its revenue, no one has claimed more than they are due.
pub proof fn lemma_claims_start_within_dues(e: EnvView, id: u32)
    requires
        store_wf(e.storage),
        e.storage.campaigns.contains_key(id),
        e.storage.campaigns[id].funds_withdrawn,
        e.storage.campaigns[id].has_revenue_sharing,
        e.storage.revenue_claimed.dom().finite(),
        forall|a: Seq<char>| #[trigger] e.storage.claimed(id, a) == 0,
        e.storage.creator_claimed(id) == 0,
    ensures
        claims_within_dues(e, id),
{
    let s = e.storage;
    let c = s.campaigns[id];
    if s.revenue_pool.contains_key(id) {
        assert(s.revenue_pool[id] >= 0);
    }
    lemma_shares_grow_with_pool(s.pool(id) as int, s.pool(id) as int, c.revenue_share_percentage as int);
    crate::revenue::lemma_creator_share_non_negative(s.pool(id) as int, c.revenue_share_percentage as int);
    assert forall|a: Seq<char>| #[trigger] s.claimed(id, a) <= revenue_due(e, id, a) by {
        if s.contributions.contains_key((id, a)) {
            assert(s.contributions[(id, a)] >= 0);
        }
        lemma_due_grows_with_pool(
            s.contribution(id, a) as int,
            campaign_contributor_pool(e, id),
            campaign_contributor_pool(e, id),
            c.amount_raised as int,
        );
    }
}

/// What one call may do to a withdrawn revenue-sharing campaign's revenue
/// accounts: keep its record, but for its verified mark, and its
/// contributions; grow its pool; and set a contributor's or the creator's
/// claimed amount to what they are due.
#[verifier::spinoff_prover]
#[verifier::rlimit(60)]
proof fn lemma_step_revenue_frame(e: EnvView, call: Call, id: u32)
    requires
        store_wf(e.storage),
        step_allowed(e, call),
        claims_within_dues(e, id),
    ensures
        ({
            let s = e.storage;
            let t = after(e, call).storage;
            &&& t.revenue_claimed.dom().finite()
            &&& forall|a: Seq<char>| #[trigger] t.contribution(id, a) == s.contribution(id, a)
            &&& s.pool(id) <= t.pool(id)
            &&& forall|a: Seq<char>| #[trigger] t.claimed(id, a) == s.claimed(id, a) || t.claimed(id, a) == revenue_due(
                e,
                id,
                a,
            )
            &&& t.creator_claimed(id) == s.creator_claimed(id) || t.creator_claimed(id) == creator_share_total(e, id)
        }),
{
    let s = e.storage;
    let t = after(e, call).storage;
    let c = s.campaigns[id];
    assert(c.id == id);
    assert(crate::laws::campaign_wf(c));
    match call {
        Call::Contribute { campaign_id, contributor, amount } => {
            assert forall|a: Seq<char>| #[trigger] t.contribution(id, a) == s.contribution(id, a) by {
                if campaign_id == id {
                    assert(t == s);
                }
            }
        },
        Call::ClaimRefund { campaign_id, contributor } => {
            assert forall|a: Seq<char>| #[trigger] t.contribution(id, a) == s.contribution(id, a) by {
                if campaign_id == id {
                    assert(t == s);
                }
            }
        },
        Call::ClaimRevenue { campaign_id, contributor } => {
            if campaign_id == id && t != s {
                let cc = s.campaigns[id];
                lemma_tdiv_fits(
                    s.contribution(id, contributor@) * campaign_contributor_pool(e, id),
                    cc.amount_raised as int,
                );
            }
        },
        Call::DepositRevenue { campaign_id, amount } => {
            if s.revenue_pool.contains_key(id) {
                assert(s.revenue_pool[id] >= 0);
            }
        },
        Call::Init { .. } => {
            if s.admin is None {
                assert(s.campaigns.dom().contains(id));
            }
        },
        Call::CreateCampaign { .. } => {},
        _ => {},
    }
}


/// Claims stay within dues: once no one has claimed more of a withdrawn
/// campaign's revenue than they are due, every call keeps it so.
pub proof fn lemma_every_call_keeps_claims_within_dues(e: EnvView, call: Call, id: u32)
    requires
        store_wf(e.storage),
        step_allowed(e, call),
        claims_within_dues(e, id),
    ensures
        claims_within_dues(after(e, call), id),
{
    let s = e.storage;
    let e2 = after(e, call);
    let t = e2.storage;
    let c = s.campaigns[id];
    lemma_step_keeps_withdrawn(e, call, id);
    lemma_step_revenue_frame(e, call, id);
    let c2 = t.campaigns[id];
    assert(c2.amount_raised == c.amount_raised && c2.revenue_share_percentage == c.revenue_share_percentage);
    assert(crate::laws::campaign_wf(c));
    if s.revenue_pool.contains_key(id) {
        assert(s.revenue_pool[id] >= 0);
    }
    let bps = c.revenue_share_percentage as int;
    lemma_shares_grow_with_pool(s.pool(id) as int, t.pool(id) as int, bps);
    assert(campaign_contributor_pool(e, id) <= campaign_contributor_pool(e2, id));
    assert(creator_share_total(e, id) <= creator_share_total(e2, id));
    assert forall|a: Seq<char>| #[trigger] t.claimed(id, a) <= revenue_due(e2, id, a) by {
        if s.contributions.contains_key((id, a)) {
            assert(s.contributions[(id, a)] >= 0);
        }
        assert(t.contribution(id, a) == s.contribution(id, a));
        assert(s.claimed(id, a) <= revenue_due(e, id, a));
        lemma_due_grows_with_pool(
            s.contribution(id, a) as int,
            campaign_contributor_pool(e, id),
            campaign_contributor_pool(e2, id),
            c.amount_raised as int,
        );
    }
}

/// Revenue paid out stays within the pool: where no one has claimed more
/// than they are due, the contributors' claims together stay within the
/// contributors' pool, the creator's within the creator's share, and all of
/// it within the revenue deposited.
pub proof fn lemma_revenue_paid_within_pool(e: EnvView, id: u32)
    requires
        store_wf(e.storage),
        contributions_within_raised(e.storage),
        claims_within_dues(e, id),
    ensures
        claimed_total(e.storage, id) <= campaign_contributor_pool(e, id),
        e.storage.creator_claimed(id) <= e.storage.pool(id) - campaign_contributor_pool(e, id),
        claimed_total(e.storage, id) + e.storage.creator_claimed(id) <= e.storage.pool(id),
{
    let s = e.storage;
    let c = s.campaigns[id];
    assert(crate::laws::campaign_wf(c));
    let raised = c.amount_raised as int;
    let cp = campaign_contributor_pool(e, id);
    if s.revenue_pool.contains_key(id) {
        assert(s.revenue_pool[id] >= 0);
    }
    lemma_shares_grow_with_pool(s.pool(id) as int, s.pool(id) as int, c.revenue_share_percentage as int);
    let u = s.revenue_claimed.dom().union(s.contributions.dom());
    let claimed_term = table_term(s.revenue_claimed, id);
    let contrib_term = table_term(s.contributions, id);
    let due_term = |k: (u32, Seq<char>)| if k.0 == id { revenue_due(e, id, k.1) } else { 0 };
    lemma_sum_superset(s.revenue_claimed.dom(), u, claimed_term);
    lemma_sum_superset(s.contributions.dom(), u, contrib_term);
    assert forall|k: (u32, Seq<char>)| u.contains(k) implies claimed_term(k) <= due_term(k) && scaled(due_term, raised)(k)
        <= scaled(contrib_term, cp)(k) by {
        if k.0 == id {
            assert(k == (id, k.1));
            assert(s.claimed(id, k.1) <= revenue_due(e, id, k.1));
            if s.contributions.contains_key(k) {
                assert(s.contributions[k] >= 0);
            }
            let given_k = s.contribution(id, k.1) as int;
            lemma_due_grows_with_pool(given_k, cp, cp, raised);
            assert(given_k * cp == cp * given_k) by (nonlinear_arith);
            assert(contrib_term(k) == given_k);
            assert(due_term(k) == revenue_due(e, id, k.1));
        } else {
            assert(raised * 0 == 0 && cp * 0 == 0);
        }
    }
    lemma_sum_mono(u, claimed_term, due_term);
    lemma_sum_mono(u, scaled(due_term, raised), scaled(contrib_term, cp));
    lemma_sum_scale(u, due_term, raised);
    lemma_sum_scale(u, contrib_term, cp);
    let dues = sum_of(u, due_term);
    let given = sum_of(u, contrib_term);
    assert(given <= raised);
    assert(dues <= cp) by (nonlinear_arith)
        requires
            raised * dues <= cp * given,
            given <= raised,
            cp >= 0,
            raised > 0,
    ;
}


/// Votes number the voters after any calls that may be made.
pub proof fn lemma_run_keeps_votes_match_voters(e: EnvView, calls: Seq<Call>)
    requires
        votes_match_voters(e.storage),
        valid_run(e, calls),
    ensures
        votes_match_voters(run(e, calls).storage),
    decreases calls.len(),
{
    if calls.len() > 0 {
        lemma_run_keeps_votes_match_voters(e, calls.drop_last());
        lemma_every_call_keeps_votes_match_voters(run(e, calls.drop_last()), calls.last());
    }
}

/// Contributions stay within what was raised after any calls that may be made.
pub proof fn lemma_run_keeps_contributions_within_raised(e: EnvView, calls: Seq<Call>)
    requires
        store_wf(e.storage),
        contributions_within_raised(e.storage),
        valid_run(e, calls),
    ensures
        contributions_within_raised(run(e, calls).storage),
    decreases calls.len(),
{
    if calls.len() > 0 {
        let prefix = calls.drop_last();
        lemma_run_keeps_contributions_within_raised(e, prefix);
        crate::history::lemma_run_keeps_store_wf(e, prefix);
        lemma_every_call_keeps_contributions_within_raised(run(e, prefix), calls.last());
    }
}

proof fn lemma_run_keeps_claims_within_dues(e: EnvView, calls: Seq<Call>, id: u32)
    requires
        store_wf(e.storage),
        claims_within_dues(e, id),
        valid_run(e, calls),
    ensures
        claims_within_dues(run(e, calls), id),
    decreases calls.len(),
{
    if calls.len() > 0 {
        let prefix = calls.drop_last();
        lemma_run_keeps_claims_within_dues(e, prefix, id);
        crate::history::lemma_run_keeps_store_wf(e, prefix);
        lemma_every_call_keeps_claims_within_dues(run(e, prefix), calls.last(), id);
    }
}

/// A campaign never pays out more revenue than was deposited: from the
/// moment its funds are withdrawn, with no revenue claimed yet, whatever
/// calls follow, its contributors' claims together stay within the
/// contributors' pool, the creator's within the creator's share, and all of
/// them within the revenue pool.
pub proof fn lemma_revenue_stays_within_pool(e: EnvView, id: u32, calls: Seq<Call>)
    requires
        store_wf(e.storage),
        contributions_within_raised(e.storage),
        e.storage.campaigns.contains_key(id),
        e.storage.campaigns[id].funds_withdrawn,
        e.storage.campaigns[id].has_revenue_sharing,
        e.storage.revenue_claimed.dom().finite(),
        forall|a: Seq<char>| #[trigger] e.storage.claimed(id, a) == 0,
        e.storage.creator_claimed(id) == 0,
        valid_run(e, calls),
    ensures
        ({
            let r = run(e, calls);
            &&& claimed_total(r.storage, id) <= campaign_contributor_pool(r, id)
            &&& r.storage.creator_claimed(id) <= r.storage.pool(id) - campaign_contributor_pool(r, id)
            &&& claimed_total(r.storage, id) + r.storage.creator_claimed(id) <= r.storage.pool(id)
        }),
{
    lemma_claims_start_within_dues(e, id);
    lemma_run_keeps_claims_within_dues(e, calls, id);
    crate::history::lemma_run_keeps_store_wf(e, calls);
    lemma_run_keeps_contributions_within_raised(e, calls);
    lemma_revenue_paid_within_pool(run(e, calls), id);
}

} // verus!
