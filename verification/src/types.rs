//! The plain enumerations of the ledger.

use vstd::prelude::*;

verus! {

/// Where a proposal stands. Every proposal is created open for voting.
#[derive(Clone, Copy, Debug, PartialEq, Eq, Structural, PartialOrd, Ord)]
pub enum Status {
    OpenVoting,
    Approved,
    Rejected,
}

/// The keys under which the ledger keeps its three entities in the store.
#[derive(Clone, Copy, Debug, PartialEq, Eq, Structural)]
pub enum DataKey {
    VoterList,
    Admin,
    ProposalStorage,
}

/// The two levels of the proposal hierarchy: a PRD stands alone, an RFC
/// belongs to a PRD.
#[derive(Clone, Copy, Debug, PartialEq, Eq, Structural)]
pub enum ProposalKind {
    PRD,
    RFC,
}

} // verus!
