use vstd::prelude::*;

use crate::assoc::AssocMap;
use crate::types::Campaign;

verus! {

/// The fee charged on withdrawals, in basis points, when none has been stored.
pub const DEFAULT_PLATFORM_FEE: u32 = 300;

/// Everything the contract keeps in storage, as a mathematical value.
///
/// The scalar settings are `None` while unset; each keyed table holds only the
/// keys that were written.  Accounts are keyed by the view of their address.
#[verifier::ext_equal]
pub struct StoreView {
    pub admin: Option<String>,
    pub token: Option<String>,
    pub platform_fee: Option<u32>,
    pub campaign_count: Option<u32>,
    pub version: Option<u32>,
    pub min_votes_quorum: Option<u32>,
    pub approval_threshold_bps: Option<u32>,
    pub campaigns: Map<u32, Campaign>,
    pub contributions: Map<(u32, Seq<char>), i128>,
    pub revenue_pool: Map<u32, i128>,
    pub revenue_claimed: Map<(u32, Seq<char>), i128>,
    pub creator_revenue_claimed: Map<u32, i128>,
    pub approve_votes: Map<u32, u32>,
    pub reject_votes: Map<u32, u32>,
    pub has_voted: Map<(u32, Seq<char>), bool>,
}

/// The value stored under `k`, or `default` when nothing is.
pub open spec fn stored_or<K, V>(m: Map<K, V>, k: K, default: V) -> V {
    if m.contains_key(k) { m[k] } else { default }
}

/// An optional setting, or `default` when unset.
pub open spec fn setting_or(v: Option<u32>, default: u32) -> u32 {
    match v {
        Some(x) => x,
        None => default,
    }
}

impl StoreView {
    pub open spec fn campaign_count_value(self) -> u32 {
        setting_or(self.campaign_count, 0)
    }

    pub open spec fn platform_fee_value(self) -> u32 {
        setting_or(self.platform_fee, DEFAULT_PLATFORM_FEE)
    }

    pub open spec fn version_value(self) -> u32 {
        setting_or(self.version, 0)
    }

    pub open spec fn contribution(self, campaign_id: u32, contributor: Seq<char>) -> i128 {
        stored_or(self.contributions, (campaign_id, contributor), 0)
    }

    pub open spec fn pool(self, campaign_id: u32) -> i128 {
        stored_or(self.revenue_pool, campaign_id, 0)
    }

    pub open spec fn claimed(self, campaign_id: u32, contributor: Seq<char>) -> i128 {
        stored_or(self.revenue_claimed, (campaign_id, contributor), 0)
    }

    pub open spec fn creator_claimed(self, campaign_id: u32) -> i128 {
        stored_or(self.creator_revenue_claimed, campaign_id, 0)
    }

    pub open spec fn approvals(self, campaign_id: u32) -> u32 {
        stored_or(self.approve_votes, campaign_id, 0)
    }

    pub open spec fn rejections(self, campaign_id: u32) -> u32 {
        stored_or(self.reject_votes, campaign_id, 0)
    }

    pub open spec fn voted(self, campaign_id: u32, voter: Seq<char>) -> bool {
        stored_or(self.has_voted, (campaign_id, voter), false)
    }
}

/// The contract's storage: settings and keyed tables, with the defaults that
/// reads fall back to when nothing was stored.
pub struct Store {
    admin: Option<String>,
    token: Option<String>,
    platform_fee: Option<u32>,
    campaign_count: Option<u32>,
    version: Option<u32>,
    min_votes_quorum: Option<u32>,
    approval_threshold_bps: Option<u32>,
    campaigns: AssocMap<u32, Campaign>,
    contributions: AssocMap<(u32, String), i128>,
    revenue_pool: AssocMap<u32, i128>,
    revenue_claimed: AssocMap<(u32, String), i128>,
    creator_revenue_claimed: AssocMap<u32, i128>,
    approve_votes: AssocMap<u32, u32>,
    reject_votes: AssocMap<u32, u32>,
    has_voted: AssocMap<(u32, String), bool>,
}

impl View for Store {
    type V = StoreView;

    closed spec fn view(&self) -> StoreView {
        StoreView {
            admin: self.admin,
            token: self.token,
            platform_fee: self.platform_fee,
            campaign_count: self.campaign_count,
            version: self.version,
            min_votes_quorum: self.min_votes_quorum,
            approval_threshold_bps: self.approval_threshold_bps,
            campaigns: self.campaigns@,
            contributions: self.contributions@,
            revenue_pool: self.revenue_pool@,
            revenue_claimed: self.revenue_claimed@,
            creator_revenue_claimed: self.creator_revenue_claimed@,
            approve_votes: self.approve_votes@,
            reject_votes: self.reject_votes@,
            has_voted: self.has_voted@,
        }
    }
}

impl Store {
    /// The view of storage in which nothing has been written.
    pub open spec fn new_view() -> StoreView {
        StoreView {
            admin: None,
            token: None,
            platform_fee: None,
            campaign_count: None,
            version: None,
            min_votes_quorum: None,
            approval_threshold_bps: None,
            campaigns: Map::empty(),
            contributions: Map::empty(),
            revenue_pool: Map::empty(),
            revenue_claimed: Map::empty(),
            creator_revenue_claimed: Map::empty(),
            approve_votes: Map::empty(),
            reject_votes: Map::empty(),
            has_voted: Map::empty(),
        }
    }

    /// Storage in which nothing has been written.
    pub fn new() -> (s: Store)
        ensures
            s@ == Store::new_view(),
    {
        Store {
            admin: None,
            token: None,
            platform_fee: None,
            campaign_count: None,
            version: None,
            min_votes_quorum: None,
            approval_threshold_bps: None,
            campaigns: AssocMap::new(),
            contributions: AssocMap::new(),
            revenue_pool: AssocMap::new(),
            revenue_claimed: AssocMap::new(),
            creator_revenue_claimed: AssocMap::new(),
            approve_votes: AssocMap::new(),
            reject_votes: AssocMap::new(),
            has_voted: AssocMap::new(),
        }
    }

    // ── Campaign ──────────────────────────────────────────────────────────

    /// Returns the campaign for the given ID, if one is stored.
    pub fn get_campaign(&self, campaign_id: u32) -> (r: Option<Campaign>)
        ensures
            r == self@.campaigns.get(campaign_id),
    {
        match self.campaigns.get(&campaign_id) {
            Some(c) => Some(c.duplicate()),
            None => None,
        }
    }

    /// Persists a campaign.
    pub fn set_campaign(&mut self, campaign_id: u32, campaign: Campaign)
        ensures
            final(self)@ == (StoreView { campaigns: old(self)@.campaigns.insert(campaign_id, campaign), ..old(self)@ }),
    {
        self.campaigns.set(campaign_id, campaign);
    }

    // ── Campaign count ────────────────────────────────────────────────────

    /// Returns the total number of campaigns created, defaulting to 0.
    pub fn get_campaign_count(&self) -> (r: u32)
        ensures
            r == self@.campaign_count_value(),
    {
        match self.campaign_count {
            Some(c) => c,
            None => 0,
        }
    }

    /// Stores the total campaign count.
    pub fn set_campaign_count(&mut self, count: u32)
        ensures
            final(self)@ == (StoreView { campaign_count: Some(count), ..old(self)@ }),
    {
        self.campaign_count = Some(count);
    }

    // ── Admin / token / fee ───────────────────────────────────────────────

    /// Returns the admin address, which must have been stored.
    pub fn get_admin(&self) -> (r: String)
        requires
            self@.admin is Some,
        ensures
            r == self@.admin->0,
    {
        match &self.admin {
            Some(a) => a.clone(),
            None => {
                proof {
                    assert(false);
                }
                String::new()
            },
        }
    }

    /// Stores the admin address.
    pub fn set_admin(&mut self, admin: String)
        ensures
            final(self)@ == (StoreView { admin: Some(admin), ..old(self)@ }),
    {
        self.admin = Some(admin);
    }

    /// Returns `true` if an admin has been set (i.e. the contract is initialized).
    pub fn has_admin(&self) -> (r: bool)
        ensures
            r == self@.admin is Some,
    {
        self.admin.is_some()
    }

    /// Returns the accepted token address, which must have been stored.
    pub fn get_token(&self) -> (r: String)
        requires
            self@.token is Some,
        ensures
            r == self@.token->0,
    {
        match &self.token {
            Some(t) => t.clone(),
            None => {
                proof {
                    assert(false);
                }
                String::new()
            },
        }
    }

    /// Returns `true` if a token address has been stored.
    pub fn has_token(&self) -> (r: bool)
        ensures
            r == self@.token is Some,
    {
        self.token.is_some()
    }

    /// Stores the accepted token address.
    pub fn set_token(&mut self, token: String)
        ensures
            final(self)@ == (StoreView { token: Some(token), ..old(self)@ }),
    {
        self.token = Some(token);
    }

    /// Returns the platform fee in basis points, defaulting to 300 (3%).
    pub fn get_platform_fee(&self) -> (r: u32)
        ensures
            r == self@.platform_fee_value(),
    {
        match self.platform_fee {
            Some(f) => f,
            None => DEFAULT_PLATFORM_FEE,
        }
    }

    /// Stores the platform fee in basis points.
    pub fn set_platform_fee(&mut self, fee: u32)
        ensures
            final(self)@ == (StoreView { platform_fee: Some(fee), ..old(self)@ }),
    {
        self.platform_fee = Some(fee);
    }

    // ── Contributions ─────────────────────────────────────────────────────

    /// Returns a contributor's total contribution to a campaign, defaulting to 0.
    pub fn get_contribution(&self, campaign_id: u32, contributor: &String) -> (r: i128)
        ensures
            r == self@.contribution(campaign_id, contributor@),
    {
        match self.contributions.get(&(campaign_id, contributor.clone())) {
            Some(v) => *v,
            None => 0,
        }
    }

    /// Stores a contributor's contribution amount.
    pub fn set_contribution(&mut self, campaign_id: u32, contributor: String, amount: i128)
        ensures
            final(self)@ == (StoreView {
                contributions: old(self)@.contributions.insert((campaign_id, contributor@), amount),
                ..old(self)@
            }),
    {
        self.contributions.set((campaign_id, contributor), amount);
    }

    // ── Revenue ───────────────────────────────────────────────────────────

    /// Returns the revenue pool balance for a campaign, defaulting to 0.
    pub fn get_revenue_pool(&self, campaign_id: u32) -> (r: i128)
        ensures
            r == self@.pool(campaign_id),
    {
        match self.revenue_pool.get(&campaign_id) {
            Some(v) => *v,
            None => 0,
        }
    }

    /// Stores the revenue pool balance for a campaign.
    pub fn set_revenue_pool(&mut self, campaign_id: u32, amount: i128)
        ensures
            final(self)@ == (StoreView { revenue_pool: old(self)@.revenue_pool.insert(campaign_id, amount), ..old(self)@ }),
    {
        self.revenue_pool.set(campaign_id, amount);
    }

    /// Returns the revenue already claimed by a contributor, defaulting to 0.
    pub fn get_revenue_claimed(&self, campaign_id: u32, contributor: &String) -> (r: i128)
        ensures
            r == self@.claimed(campaign_id, contributor@),
    {
        match self.revenue_claimed.get(&(campaign_id, contributor.clone())) {
            Some(v) => *v,
            None => 0,
        }
    }

    /// Stores the revenue claimed amount for a contributor.
    pub fn set_revenue_claimed(&mut self, campaign_id: u32, contributor: String, amount: i128)
        ensures
            final(self)@ == (StoreView {
                revenue_claimed: old(self)@.revenue_claimed.insert((campaign_id, contributor@), amount),
                ..old(self)@
            }),
    {
        self.revenue_claimed.set((campaign_id, contributor), amount);
    }

    /// Returns the creator's total claimed revenue for a campaign, defaulting to 0.
    pub fn get_creator_revenue_claimed(&self, campaign_id: u32) -> (r: i128)
        ensures
            r == self@.creator_claimed(campaign_id),
    {
        match self.creator_revenue_claimed.get(&campaign_id) {
            Some(v) => *v,
            None => 0,
        }
    }

    /// Stores the creator's claimed revenue amount for a campaign.
    pub fn set_creator_revenue_claimed(&mut self, campaign_id: u32, amount: i128)
        ensures
            final(self)@ == (StoreView {
                creator_revenue_claimed: old(self)@.creator_revenue_claimed.insert(campaign_id, amount),
                ..old(self)@
            }),
    {
        self.creator_revenue_claimed.set(campaign_id, amount);
    }

    // ── Voting ────────────────────────────────────────────────────────────

    /// Returns the number of approval votes for a campaign, defaulting to 0.
    pub fn get_approve_votes(&self, campaign_id: u32) -> (r: u32)
        ensures
            r == self@.approvals(campaign_id),
    {
        match self.approve_votes.get(&campaign_id) {
            Some(v) => *v,
            None => 0,
        }
    }

    /// Stores the approval vote count for a campaign.
    pub fn set_approve_votes(&mut self, campaign_id: u32, count: u32)
        ensures
            final(self)@ == (StoreView { approve_votes: old(self)@.approve_votes.insert(campaign_id, count), ..old(self)@ }),
    {
        self.approve_votes.set(campaign_id, count);
    }

    /// Returns the number of rejection votes for a campaign, defaulting to 0.
    pub fn get_reject_votes(&self, campaign_id: u32) -> (r: u32)
        ensures
            r == self@.rejections(campaign_id),
    {
        match self.reject_votes.get(&campaign_id) {
            Some(v) => *v,
            None => 0,
        }
    }

    /// Stores the rejection vote count for a campaign.
    pub fn set_reject_votes(&mut self, campaign_id: u32, count: u32)
        ensures
            final(self)@ == (StoreView { reject_votes: old(self)@.reject_votes.insert(campaign_id, count), ..old(self)@ }),
    {
        self.reject_votes.set(campaign_id, count);
    }

    /// Returns whether a voter has already voted on a campaign, defaulting to `false`.
    pub fn get_has_voted(&self, campaign_id: u32, voter: &String) -> (r: bool)
        ensures
            r == self@.voted(campaign_id, voter@),
    {
        match self.has_voted.get(&(campaign_id, voter.clone())) {
            Some(v) => *v,
            None => false,
        }
    }

    /// Records that a voter has voted on a campaign.
    pub fn set_has_voted(&mut self, campaign_id: u32, voter: String)
        ensures
            final(self)@ == (StoreView { has_voted: old(self)@.has_voted.insert((campaign_id, voter@), true), ..old(self)@ }),
    {
        self.has_voted.set((campaign_id, voter), true);
    }

    /// Returns the minimum vote quorum setting, falling back to `default` if unset.
    pub fn get_min_votes_quorum(&self, default: u32) -> (r: u32)
        ensures
            r == setting_or(self@.min_votes_quorum, default),
    {
        match self.min_votes_quorum {
            Some(v) => v,
            None => default,
        }
    }

    /// Stores the minimum vote quorum.
    pub fn set_min_votes_quorum(&mut self, value: u32)
        ensures
            final(self)@ == (StoreView { min_votes_quorum: Some(value), ..old(self)@ }),
    {
        self.min_votes_quorum = Some(value);
    }

    /// Returns the approval threshold in basis points, falling back to `default` if unset.
    pub fn get_approval_threshold_bps(&self, default: u32) -> (r: u32)
        ensures
            r == setting_or(self@.approval_threshold_bps, default),
    {
        match self.approval_threshold_bps {
            Some(v) => v,
            None => default,
        }
    }

    /// Stores the approval threshold in basis points.
    pub fn set_approval_threshold_bps(&mut self, value: u32)
        ensures
            final(self)@ == (StoreView { approval_threshold_bps: Some(value), ..old(self)@ }),
    {
        self.approval_threshold_bps = Some(value);
    }

    // ── Version ───────────────────────────────────────────────────────────

    /// Stores the contract version number.
    pub fn set_version(&mut self, version: u32)
        ensures
            final(self)@ == (StoreView { version: Some(version), ..old(self)@ }),
    {
        self.version = Some(version);
    }

    /// Returns the stored contract version, defaulting to 0 if unset.
    pub fn get_version(&self) -> (r: u32)
        ensures
            r == self@.version_value(),
    {
        match self.version {
            Some(v) => v,
            None => 0,
        }
    }
}

} // verus!
