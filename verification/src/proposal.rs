//! A proposal and the rule by which a ballot is cast on it.

use crate::error::Error;
use crate::host::{address_home, ballots, ballots_contains, ballots_home, ballots_new, ballots_set};
use crate::types::{ProposalKind, Status};
use soroban_sdk::{Address, Env};
use vstd::prelude::*;

verus! {

/// What a proposal is: its fields as mathematical values.
pub struct ProposalView {
    pub id: u64,
    pub kind: ProposalKind,
    /// The id of the parent; `0` where there is none.
    pub parent: u64,
    pub status: Status,
    /// The sum of the weights cast so far.
    pub votes: int,
    /// The identities that have cast a ballot.
    pub voters: Set<Address>,
    /// The time from which ballots are refused; `None` where voting never
    /// closes.
    pub voting_end_time: Option<u64>,
}

impl ProposalView {
    /// A proposal as it is created: open, with no ballot cast.
    pub open spec fn fresh(
        id: u64,
        kind: ProposalKind,
        parent: u64,
        voting_end_time: Option<u64>,
    ) -> ProposalView {
        ProposalView {
            id,
            kind,
            parent,
            status: Status::OpenVoting,
            votes: 0,
            voters: Set::empty(),
            voting_end_time,
        }
    }

    /// Whether voting has closed at time `now`.
    pub open spec fn closed_at(self, now: u64) -> bool {
        self.voting_end_time matches Some(end) && now >= end
    }

    /// Whether a ballot of `voter` at time `now` is accepted, and why not.
    pub open spec fn ballot_outcome(self, now: u64, voter: Address) -> Result<(), Error> {
        if self.closed_at(now) {
            Err(Error::VotingClosed)
        } else if self.voters.contains(voter) {
            Err(Error::AlreadyVoted)
        } else {
            Ok(())
        }
    }

    /// The proposal with a ballot of `weight` by `voter` added.
    pub open spec fn with_ballot(self, voter: Address, weight: int) -> ProposalView {
        ProposalView { votes: self.votes + weight, voters: self.voters.insert(voter), ..self }
    }

    /// The proposal after `voter` has tried to cast `weight` at time `now`.
    pub open spec fn after_ballot(self, now: u64, voter: Address, weight: int) -> ProposalView {
        if self.ballot_outcome(now, voter) is Ok {
            self.with_ballot(voter, weight)
        } else {
            self
        }
    }
}

/// A votable unit of governance. It belongs to one environment, its home:
/// the one in which its voters are kept. An identity can be held against a
/// proposal only where it has the same home.
#[derive(Debug, PartialEq)]
pub struct Proposal {
    id: u64,
    kind: ProposalKind,
    parent: u64,
    status: Status,
    votes: i64,
    voters: soroban_sdk::Map<Address, bool>,
    voting_end_time: Option<u64>,
}

impl View for Proposal {
    type V = ProposalView;

    closed spec fn view(&self) -> ProposalView {
        ProposalView {
            id: self.id,
            kind: self.kind,
            parent: self.parent,
            status: self.status,
            votes: self.votes as int,
            voters: ballots(self.voters),
            voting_end_time: self.voting_end_time,
        }
    }
}

impl Clone for Proposal {
    fn clone(&self) -> (r: Proposal)
        ensures
            r@ == self@,
            r.home() == self.home(),
    {
        Proposal {
            id: self.id,
            kind: self.kind,
            parent: self.parent,
            status: self.status,
            votes: self.votes,
            voters: self.voters.clone(),
            voting_end_time: self.voting_end_time,
        }
    }
}

impl Proposal {
    /// The environment that the proposal belongs to.
    pub closed spec fn home(&self) -> Env {
        ballots_home(self.voters)
    }

    /// Creates a proposal that is open for voting and has no ballot yet. Its
    /// home is `env`.
    pub fn new(
        env: &Env,
        id: u64,
        kind: ProposalKind,
        parent: u64,
        voting_end_time: Option<u64>,
    ) -> (p: Proposal)
        ensures
            p@ == ProposalView::fresh(id, kind, parent, voting_end_time),
            p.home() == *env,
    {
        Proposal {
            id,
            kind,
            parent,
            status: Status::OpenVoting,
            votes: 0,
            voters: ballots_new(env),
            voting_end_time,
        }
    }

    /// Puts a proposal together from its stored fields. Its home is that of
    /// `voters`.
    pub fn from_parts(
        id: u64,
        kind: ProposalKind,
        parent: u64,
        status: Status,
        votes: i64,
        voters: soroban_sdk::Map<Address, bool>,
        voting_end_time: Option<u64>,
    ) -> (p: Proposal)
        ensures
            p@ == (ProposalView {
                id,
                kind,
                parent,
                status,
                votes: votes as int,
                voters: ballots(voters),
                voting_end_time,
            }),
            p.home() == ballots_home(voters),
    {
        Proposal { id, kind, parent, status, votes, voters, voting_end_time }
    }

    /// The id under which the proposal is stored.
    pub fn id(&self) -> (r: u64)
        ensures
            r == self@.id,
    {
        self.id
    }

    /// Whether the proposal is a PRD or an RFC.
    pub fn kind(&self) -> (r: ProposalKind)
        ensures
            r == self@.kind,
    {
        self.kind
    }

    /// The id of the parent; `0` where there is none.
    pub fn parent(&self) -> (r: u64)
        ensures
            r == self@.parent,
    {
        self.parent
    }

    /// Where the proposal stands.
    pub fn status(&self) -> (r: Status)
        ensures
            r == self@.status,
    {
        self.status
    }

    /// The tally: the sum of the weights cast so far.
    pub fn votes(&self) -> (r: i64)
        ensures
            r == self@.votes,
    {
        self.votes
    }

    /// The identities that have voted, as keys of a dictionary of the
    /// proposal's home.
    pub fn voters(&self) -> (r: soroban_sdk::Map<Address, bool>)
        ensures
            ballots(r) == self@.voters,
            ballots_home(r) == self.home(),
    {
        self.voters.clone()
    }

    /// The time from which ballots are refused, if there is one.
    pub fn voting_end_time(&self) -> (r: Option<u64>)
        ensures
            r == self@.voting_end_time,
    {
        self.voting_end_time
    }

    /// Whether `voter`, an identity of the proposal's home, has cast a
    /// ballot on this proposal.
    pub fn has_voted(&self, voter: &Address) -> (r: bool)
        requires
            address_home(*voter) == self.home(),
        ensures
            r == self@.voters.contains(*voter),
    {
        ballots_contains(&self.voters, voter)
    }

    /// Whether a ballot of `voter`, an identity of the proposal's home, at
    /// time `current_time` would be accepted: `VotingClosed` from the
    /// deadline on, else `AlreadyVoted` where `voter` has voted before, else
    /// `Ok`.
    pub fn can_vote(&self, current_time: u64, voter: &Address) -> (r: Result<(), Error>)
        requires
            address_home(*voter) == self.home(),
        ensures
            r == self@.ballot_outcome(current_time, *voter),
    {
        if let Some(end) = self.voting_end_time {
            if current_time >= end {
                return Err(Error::VotingClosed);
            }
        }
        if ballots_contains(&self.voters, voter) {
            return Err(Error::AlreadyVoted);
        }
        Ok(())
    }

    /// Whether the tally has room for a ballot of `weight`.
    pub fn has_room(&self, weight: i32) -> (r: bool)
        ensures
            r == (i64::MIN <= self@.votes + weight <= i64::MAX),
    {
        self.votes.checked_add(weight as i64).is_some()
    }

    /// Casts a ballot as `vote` does, whatever the tally holds: where the
    /// ballot would be accepted and the tally has no room for it, the result
    /// is `None` and nothing is changed.
    pub fn checked_vote(&mut self, current_time: u64, voter: Address, weight: i32) -> (r: Option<
        Result<(), Error>,
    >)
        requires
            address_home(voter) == old(self).home(),
        ensures
            final(self).home() == old(self).home(),
            r is None <==> old(self)@.ballot_outcome(current_time, voter) is Ok && !(i64::MIN
                <= old(self)@.votes + weight <= i64::MAX),
            r is None ==> final(self)@ == old(self)@,
            r matches Some(outcome) ==> outcome == old(self)@.ballot_outcome(current_time, voter)
                && final(self)@ == old(self)@.after_ballot(current_time, voter, weight as int),
    {
        if self.can_vote(current_time, &voter).is_ok() && !self.has_room(weight) {
            return None;
        }
        Some(self.vote(current_time, voter, weight))
    }

    /// Casts a ballot of `weight` for `voter` at time `current_time`.
    ///
    /// The ballot is refused with `VotingClosed` from the deadline on, and
    /// with `AlreadyVoted` where `voter` has voted before; a refused ballot
    /// changes nothing. An accepted one adds `weight` to the tally and
    /// `voter` to the voters. `voter` is an identity of the proposal's home,
    /// and the tally must have room for `weight`.
    pub fn vote(&mut self, current_time: u64, voter: Address, weight: i32) -> (r: Result<(), Error>)
        requires
            address_home(voter) == old(self).home(),
            old(self)@.ballot_outcome(current_time, voter) is Ok ==> i64::MIN <= old(self)@.votes
                + weight <= i64::MAX,
        ensures
            final(self).home() == old(self).home(),
            r == old(self)@.ballot_outcome(current_time, voter),
            final(self)@ == old(self)@.after_ballot(current_time, voter, weight as int),
    {
        match self.can_vote(current_time, &voter) {
            Err(e) => Err(e),
            Ok(()) => {
                self.votes = self.votes + weight as i64;
                ballots_set(&mut self.voters, voter, true);
                Ok(())
            },
        }
    }
}

} // verus!
