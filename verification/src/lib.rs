//! A governance ledger: a registry of weighted voters and a store of
//! proposals on which each registered voter may cast one weighted ballot.

pub mod contract;
pub mod error;
pub mod host;
pub mod laws;
pub mod ledger;
pub mod proposal;
pub mod types;

pub use contract::ProposalContract;
pub use error::Error;
pub use ledger::{LedgerView, Request};
pub use proposal::{Proposal, ProposalView};
pub use types::{DataKey, ProposalKind, Status};
