use vstd::prelude::*;

use crate::assoc::AssocMap;
use crate::storage::{stored_or, Store, StoreView};
use crate::types::{ContractEvent, Party, Transfer};

verus! {

/// What an operation sees of the world and leaves behind in it, as a
/// mathematical value.
#[verifier::ext_equal]
pub struct EnvView {
    pub storage: StoreView,
    pub timestamp: u64,
    pub token_balances: Map<Seq<char>, i128>,
    pub events: Seq<ContractEvent>,
    pub transfers: Seq<Transfer>,
    pub auths: Seq<String>,
}

/// `e` after `who`, if anyone, has been asked to authorize the call.
pub open spec fn authorized(e: EnvView, who: Option<String>) -> EnvView {
    match who {
        Some(a) => EnvView { auths: e.auths.push(a), ..e },
        None => e,
    }
}

impl EnvView {
    /// The balance that the configured token reports for `account`.
    pub open spec fn balance_of(self, account: Seq<char>) -> i128 {
        stored_or(self.token_balances, account, 0)
    }
}

/// The environment in which the contract's operations run: its storage, the
/// ledger's current timestamp, the token balances the configured token
/// reports, and the events and token transfers that operations emit, in order.
/// `auths` lists, in order, the accounts whose authorization operations
/// required: an operation proceeds past such a requirement only when that
/// account has authorized it, and otherwise aborts with all its effects.
///
/// Transfers are requests to the configured token: recording one does not
/// change `token_balances`.
pub struct Env {
    pub storage: Store,
    pub timestamp: u64,
    pub token_balances: AssocMap<String, i128>,
    pub events: Vec<ContractEvent>,
    pub transfers: Vec<Transfer>,
    pub auths: Vec<String>,
}

impl View for Env {
    type V = EnvView;

    open spec fn view(&self) -> EnvView {
        EnvView {
            storage: self.storage@,
            timestamp: self.timestamp,
            token_balances: self.token_balances@,
            events: self.events@,
            transfers: self.transfers@,
            auths: self.auths@,
        }
    }
}

impl Env {
    /// An environment with empty storage at the given ledger timestamp.
    pub fn new(timestamp: u64) -> (env: Env)
        ensures
            env@.storage == Store::new_view(),
            env@.timestamp == timestamp,
            env@.token_balances == Map::<Seq<char>, i128>::empty(),
            env@.events == Seq::<ContractEvent>::empty(),
            env@.transfers == Seq::<Transfer>::empty(),
            env@.auths == Seq::<String>::empty(),
    {
        Env {
            storage: Store::new(),
            timestamp,
            token_balances: AssocMap::new(),
            events: Vec::new(),
            transfers: Vec::new(),
            auths: Vec::new(),
        }
    }

    /// The balance that the configured token reports for `account`, 0 when it
    /// reports none.  There is a balance to ask for only once a token is configured.
    pub fn token_balance(&self, account: &String) -> (b: i128)
        requires
            self@.storage.token is Some,
        ensures
            b == self@.balance_of(account@),
    {
        match self.token_balances.get(account) {
            Some(b) => *b,
            None => 0,
        }
    }

    /// Records the balance that the configured token reports for `account`.
    pub fn set_token_balance(&mut self, account: String, balance: i128)
        ensures
            final(self)@ == (EnvView { token_balances: old(self)@.token_balances.insert(account@, balance), ..old(self)@ }),
    {
        self.token_balances.set(account, balance);
    }

    /// Publishes an event.
    pub(crate) fn publish(&mut self, event: ContractEvent)
        ensures
            final(self)@ == (EnvView { events: old(self)@.events.push(event), ..old(self)@ }),
    {
        self.events.push(event);
    }

    /// Requires `who` to authorize the call.
    pub(crate) fn require_auth(&mut self, who: String)
        ensures
            final(self)@ == authorized(old(self)@, Some(who)),
    {
        self.auths.push(who);
    }

    /// Requests a transfer of the configured token.
    pub(crate) fn transfer(&mut self, from: Party, to: Party, amount: i128)
        ensures
            final(self)@ == (EnvView {
                transfers: old(self)@.transfers.push(Transfer { from, to, amount }),
                ..old(self)@
            }),
    {
        self.transfers.push(Transfer { from, to, amount });
    }
}

} // verus!
