//! A verified model of a crowdfunding contract in which communities fund and
//! validate causes: campaigns, contributions, withdrawals with a platform fee,
//! refunds, revenue sharing for educational startups, and verification of
//! campaigns by the admin or by community vote.
//!
//! Every operation of [`ProofOfHeart`] runs in an [`Env`] that holds the
//! contract's storage, the ledger timestamp, and the balances the configured
//! token reports, and that records the events and token transfers the
//! operation emits and the accounts whose authorization it requires.
//!
//! Beyond each operation's contract, [`outcomes`] states when each operation
//! succeeds and what it then does, directly in terms of its inputs; [`laws`] states what holds between
//! operations, [`history`] what holds over any sequence of calls, and
//! [`totals`] the totals kept consistent throughout: votes and voters,
//! contributions and amounts raised, and revenue paid out and deposited.

pub mod assoc;
pub mod contract;
pub mod env;
pub mod errors;
pub mod history;
pub mod laws;
pub mod limits;
pub mod outcomes;
pub mod revenue;
pub mod storage;
pub mod sums;
pub mod totals;
pub mod types;
pub mod voting;

pub use contract::ProofOfHeart;
pub use env::Env;
pub use errors::Error;
pub use storage::Store;
pub use types::{Campaign, Category, ContractEvent, Party, Transfer};
