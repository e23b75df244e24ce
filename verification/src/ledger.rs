//! The ledger as a mathematical value, and what each operation makes of it.
//!
//! Every operation is described by two functions: its outcome, which is the
//! first rule that the request breaks or `Ok`, and the ledger after it, which
//! is the ledger before it whenever the outcome is an error. `init` is never
//! refused, and has its effect once.

use crate::error::Error;
use crate::proposal::ProposalView;
use crate::types::{DataKey, ProposalKind};
use soroban_sdk::Address;
use vstd::prelude::*;

verus! {

/// The absolute value of a ballot's weight.
pub open spec fn magnitude(weight: int) -> int {
    if weight < 0 {
        -weight
    } else {
        weight
    }
}

/// The time at which voting closes on a proposal created at `now`.
pub open spec fn deadline(now: u64, duration: Option<u64>) -> Option<u64> {
    match duration {
        Some(d) => Some((now + d) as u64),
        None => None,
    }
}

/// The parent that is recorded for a new proposal: an RFC keeps the parent
/// it names, a PRD has none.
pub open spec fn recorded_parent(kind: ProposalKind, parent: u64) -> u64 {
    if kind is RFC {
        parent
    } else {
        0
    }
}

/// One request to the ledger.
pub enum Request {
    /// Initialise the ledger with `admin`.
    Init { admin: Address },
    /// Register the entries of a dictionary, of which `readable` says whether
    /// all of it can be read.
    AddVoters { authorized: bool, readable: bool, entries: Map<Address, Option<u32>> },
    /// Create a proposal whose voting closes at `voting_end_time`.
    Create {
        authorized: bool,
        id: u64,
        kind: ProposalKind,
        parent: u64,
        voting_end_time: Option<u64>,
    },
    /// Cast a ballot.
    Vote { voter: Address, id: u64, weight: int, now: u64 },
}

/// Whether the proposal `id` of `store` has its place in the hierarchy: a
/// PRD has no parent, and the parent of an RFC is a PRD of `store`.
pub open spec fn placed(store: Map<u64, ProposalView>, id: u64) -> bool {
    match store[id].kind {
        ProposalKind::PRD => store[id].parent == 0,
        ProposalKind::RFC => store.contains_key(store[id].parent) && store[store[id].parent].kind
            is PRD,
    }
}

/// The three entities of the ledger. Each is absent until the ledger is
/// initialised, and none is ever taken away again.
pub struct LedgerView {
    /// The identity that may register voters and create proposals.
    pub admin: Option<Address>,
    /// The registry. Under each registered identity stands its weight, or
    /// `None` where the stored weight cannot be read.
    pub voters: Option<Map<Address, Option<u32>>>,
    /// The proposals by id.
    pub proposals: Option<Map<u64, ProposalView>>,
}

impl LedgerView {
    /// The ledger before it is initialised.
    pub open spec fn blank() -> LedgerView {
        LedgerView { admin: None, voters: None, proposals: None }
    }

    /// The ledger as `init` leaves a blank one.
    pub open spec fn initialised(admin: Address) -> LedgerView {
        LedgerView { admin: Some(admin), voters: Some(Map::empty()), proposals: Some(Map::empty()) }
    }

    /// The ledger after `init`. A ledger that has an admin stays as it is:
    /// the admin is set once. On a ledger without one, `admin` becomes the
    /// admin, and the registry and the proposals start empty where they are
    /// absent; what is present stays.
    pub open spec fn after_init(self, admin: Address) -> LedgerView {
        if self.admin is Some {
            self
        } else {
            LedgerView {
                admin: Some(admin),
                voters: match self.voters {
                    Some(registry) => Some(registry),
                    None => Some(Map::empty()),
                },
                proposals: match self.proposals {
                    Some(store) => Some(store),
                    None => Some(Map::empty()),
                },
            }
        }
    }

    /// Whether the entity that is kept under `key` is present.
    pub open spec fn holds(self, key: DataKey) -> bool {
        match key {
            DataKey::VoterList => self.voters is Some,
            DataKey::Admin => self.admin is Some,
            DataKey::ProposalStorage => self.proposals is Some,
        }
    }

    /// Whether a proposal with this id is stored.
    pub open spec fn has_proposal(self, id: u64) -> bool {
        self.proposals matches Some(store) && store.contains_key(id)
    }

    /// Whether `who` is registered with the readable weight `w`.
    pub open spec fn registered_with(self, who: Address, w: u32) -> bool {
        self.voters matches Some(registry) && registry.contains_key(who) && registry[who] == Some(w)
    }

    /// What guards the admin's operations: the ledger has an admin, and the
    /// caller has proved to be it.
    pub open spec fn admin_gate(self, authorized: bool) -> Result<(), Error> {
        if self.admin is None {
            Err(Error::KeyExpected)
        } else if !authorized {
            Err(Error::Unauthorized)
        } else {
            Ok(())
        }
    }

    /// The outcome of registering the entries of a dictionary, of which
    /// `readable` says whether all of it can be read.
    pub open spec fn add_voters_outcome(self, authorized: bool, readable: bool) -> Result<
        (),
        Error,
    > {
        if self.admin_gate(authorized) is Err {
            self.admin_gate(authorized)
        } else if self.voters is None {
            Err(Error::KeyExpected)
        } else if !readable {
            Err(Error::Conversion)
        } else {
            Ok(())
        }
    }

    /// The ledger after registering `entries`: each entry is inserted, and
    /// replaces the weight of an identity that was registered before.
    pub open spec fn after_add_voters(
        self,
        authorized: bool,
        readable: bool,
        entries: Map<Address, Option<u32>>,
    ) -> LedgerView {
        if self.add_voters_outcome(authorized, readable) is Ok {
            LedgerView { voters: Some(self.voters->0.union_prefer_right(entries)), ..self }
        } else {
            self
        }
    }

    /// The outcome of reading the registry.
    pub open spec fn voters_outcome(self) -> Result<Map<Address, Option<u32>>, Error> {
        match self.voters {
            Some(registry) => Ok(registry),
            None => Err(Error::KeyExpected),
        }
    }

    /// The outcome of creating a proposal `id` of the given kind under
    /// `parent`.
    pub open spec fn create_outcome(
        self,
        authorized: bool,
        id: u64,
        kind: ProposalKind,
        parent: u64,
    ) -> Result<(), Error> {
        if self.admin_gate(authorized) is Err {
            self.admin_gate(authorized)
        } else {
            match self.proposals {
                None => Err(Error::KeyExpected),
                Some(store) => {
                    if store.contains_key(id) {
                        Err(Error::DuplicatedEntity)
                    } else if kind is RFC && !store.contains_key(parent) {
                        Err(Error::NotFound)
                    } else if kind is RFC && !(store[parent].kind is PRD) {
                        Err(Error::ParentNotPRD)
                    } else {
                        Ok(())
                    }
                },
            }
        }
    }

    /// The ledger after creating a proposal whose voting closes at
    /// `voting_end_time`.
    pub open spec fn after_create(
        self,
        authorized: bool,
        id: u64,
        kind: ProposalKind,
        parent: u64,
        voting_end_time: Option<u64>,
    ) -> LedgerView {
        if self.create_outcome(authorized, id, kind, parent) is Ok {
            LedgerView {
                proposals: Some(
                    self.proposals->0.insert(
                        id,
                        ProposalView::fresh(id, kind, recorded_parent(kind, parent), voting_end_time),
                    ),
                ),
                ..self
            }
        } else {
            self
        }
    }

    /// The outcome of reading the proposal `id`.
    pub open spec fn proposal_outcome(self, id: u64) -> Result<ProposalView, Error> {
        match self.proposals {
            None => Err(Error::KeyExpected),
            Some(store) => {
                if store.contains_key(id) {
                    Ok(store[id])
                } else {
                    Err(Error::NotFound)
                }
            },
        }
    }

    /// The outcome of a ballot of `weight` by `voter` on the proposal `id`
    /// at time `now`.
    pub open spec fn vote_outcome(self, voter: Address, id: u64, weight: int, now: u64) -> Result<
        (),
        Error,
    > {
        match self.voters {
            None => Err(Error::KeyExpected),
            Some(registry) => {
                if !registry.contains_key(voter) {
                    Err(Error::NotInVoterList)
                } else {
                    match registry[voter] {
                        None => Err(Error::Conversion),
                        Some(ceiling) => {
                            if magnitude(weight) > ceiling {
                                Err(Error::WeightExceeded)
                            } else {
                                match self.proposal_outcome(id) {
                                    Err(e) => Err(e),
                                    Ok(p) => p.ballot_outcome(now, voter),
                                }
                            }
                        },
                    }
                }
            },
        }
    }

    /// The ledger after that ballot: where it is accepted, the proposal's
    /// tally has grown by `weight` and `voter` is among its voters.
    pub open spec fn after_vote(self, voter: Address, id: u64, weight: int, now: u64) -> LedgerView {
        if self.vote_outcome(voter, id, weight, now) is Ok {
            LedgerView {
                proposals: Some(
                    self.proposals->0.insert(id, self.proposals->0[id].with_ballot(voter, weight)),
                ),
                ..self
            }
        } else {
            self
        }
    }

    /// The outcome of one request. `init` is never refused.
    pub open spec fn outcome(self, request: Request) -> Result<(), Error> {
        match request {
            Request::Init { admin } => Ok(()),
            Request::AddVoters { authorized, readable, entries } => self.add_voters_outcome(
                authorized,
                readable,
            ),
            Request::Create { authorized, id, kind, parent, voting_end_time } => self.create_outcome(
                authorized,
                id,
                kind,
                parent,
            ),
            Request::Vote { voter, id, weight, now } => self.vote_outcome(voter, id, weight, now),
        }
    }

    /// The ledger after one request.
    pub open spec fn after(self, request: Request) -> LedgerView {
        match request {
            Request::Init { admin } => self.after_init(admin),
            Request::AddVoters { authorized, readable, entries } => self.after_add_voters(
                authorized,
                readable,
                entries,
            ),
            Request::Create { authorized, id, kind, parent, voting_end_time } => self.after_create(
                authorized,
                id,
                kind,
                parent,
                voting_end_time,
            ),
            Request::Vote { voter, id, weight, now } => self.after_vote(voter, id, weight, now),
        }
    }

    /// The ledger after a sequence of requests, taken in order.
    pub open spec fn after_all(self, requests: Seq<Request>) -> LedgerView
        decreases requests.len(),
    {
        if requests.len() == 0 {
            self
        } else {
            self.after_all(requests.drop_last()).after(requests.last())
        }
    }

    /// Whether the tally of proposal `id` has room for an accepted ballot of
    /// `weight`.
    pub open spec fn tally_has_room(self, id: u64, weight: int) -> bool {
        self.has_proposal(id) ==> i64::MIN <= self.proposals->0[id].votes + weight <= i64::MAX
    }

    /// Every proposal is stored under its own id.
    pub open spec fn keyed_by_id(self) -> bool {
        self.proposals matches Some(store) ==> forall|id: u64| #[trigger]
            store.contains_key(id) ==> store[id].id == id
    }

    /// The hierarchy is one level deep: a PRD has no parent, and the parent
    /// of an RFC is a stored PRD.
    pub open spec fn hierarchy_sound(self) -> bool {
        self.proposals matches Some(store) ==> forall|id: u64| #[trigger]
            store.contains_key(id) ==> placed(store, id)
    }

    /// What holds of every ledger that the operations have built.
    pub open spec fn well_formed(self) -> bool {
        &&& self.keyed_by_id()
        &&& self.hierarchy_sound()
    }
}

} // verus!
