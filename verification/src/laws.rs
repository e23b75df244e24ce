//! What holds of the ledger whatever is asked of it.
//!
//! The laws speak of the ledger as a mathematical value, in the terms in
//! which the operations' contracts are written, so each of them holds of
//! every run of the operations.

use crate::error::Error;
use crate::ledger::{magnitude, placed, LedgerView, Request};
use crate::types::{ProposalKind, Status};
use soroban_sdk::Address;
use vstd::prelude::*;

verus! {

/// A blank ledger is well formed, `init` makes of it the initialised ledger,
/// and that is well formed too.
pub proof fn law_initialised_is_well_formed(admin: Address)
    ensures
        LedgerView::blank().well_formed(),
        LedgerView::blank().after_init(admin) == LedgerView::initialised(admin),
        LedgerView::initialised(admin).well_formed(),
{
}

/// The ledger is initialised once: `init` gives an admin to a ledger that
/// has none, and leaves a ledger that has one as it is, so a second `init`
/// changes nothing. `init` removes nothing: a registry and proposals that
/// are present stay as they are.
pub proof fn law_init_once(s: LedgerView, first: Address, second: Address)
    ensures
        s.after_init(first).admin is Some,
        s.admin is Some ==> s.after_init(first) == s,
        s.admin is None ==> s.after_init(first).admin == Some(first),
        s.after_init(first).after_init(second) == s.after_init(first),
        s.voters is Some ==> s.after_init(first).voters == s.voters,
        s.proposals is Some ==> s.after_init(first).proposals == s.proposals,
        s.admin is None ==> s.after_init(first).voters is Some,
        s.admin is None ==> s.after_init(first).proposals is Some,
{
}

/// A refused request has no effect: the ledger after it is the ledger
/// before it.
pub proof fn law_refused_changes_nothing(s: LedgerView, request: Request)
    requires
        s.outcome(request) is Err,
    ensures
        s.after(request) == s,
{
}

/// A store keeps its hierarchy where every proposal keeps its kind and its
/// parent, and every new proposal has its place.
proof fn lemma_hierarchy_kept(s: LedgerView, t: LedgerView)
    requires
        s.hierarchy_sound(),
        s.proposals is Some,
        t.proposals is Some,
        forall|k: u64| #[trigger]
            s.proposals->0.contains_key(k) ==> t.proposals->0.contains_key(k)
                && t.proposals->0[k].kind == s.proposals->0[k].kind && t.proposals->0[k].parent
                == s.proposals->0[k].parent,
        forall|k: u64| #[trigger]
            t.proposals->0.contains_key(k) && !s.proposals->0.contains_key(k) ==> placed(
                t.proposals->0,
                k,
            ),
    ensures
        t.hierarchy_sound(),
{
    assert forall|k: u64| #[trigger] t.proposals->0.contains_key(k) implies placed(
        t.proposals->0,
        k,
    ) by {
        if s.proposals->0.contains_key(k) {
            assert(placed(s.proposals->0, k));
        }
    }
}

/// No request breaks a well-formed ledger: proposals stay under their own
/// ids, a PRD has no parent, and the parent of an RFC is a stored PRD.
pub proof fn law_requests_keep_well_formed(s: LedgerView, requests: Seq<Request>)
    requires
        s.well_formed(),
    ensures
        s.after_all(requests).well_formed(),
    decreases requests.len(),
{
    if requests.len() > 0 {
        law_requests_keep_well_formed(s, requests.drop_last());
        let t = s.after_all(requests.drop_last());
        let next = t.after(requests.last());
        if t.proposals is Some && next.proposals != t.proposals {
            lemma_hierarchy_kept(t, next);
        }
    }
}

/// The admin is never rotated: whatever is asked of a ledger that has an
/// admin, `init` included, its admin stays.
pub proof fn law_admin_never_rotates(s: LedgerView, requests: Seq<Request>)
    requires
        s.admin is Some,
    ensures
        s.after_all(requests).admin == s.admin,
    decreases requests.len(),
{
    if requests.len() > 0 {
        law_admin_never_rotates(s, requests.drop_last());
    }
}

/// Nobody leaves the registry: whatever is asked, `init` included, an
/// identity that is registered stays registered.
pub proof fn law_registry_only_grows(s: LedgerView, requests: Seq<Request>, who: Address)
    requires
        s.voters is Some,
        s.voters->0.contains_key(who),
    ensures
        s.after_all(requests).voters is Some,
        s.after_all(requests).voters->0.contains_key(who),
    decreases requests.len(),
{
    if requests.len() > 0 {
        law_registry_only_grows(s, requests.drop_last(), who);
    }
}

/// No request removes or rewrites a proposal: whatever is asked, `init`
/// included, it is still stored, with its id, kind, parent, status and
/// deadline, and every identity that had voted on it is still among its
/// voters.
pub proof fn law_proposals_stay(s: LedgerView, requests: Seq<Request>, id: u64)
    requires
        s.has_proposal(id),
    ensures
        s.after_all(requests).has_proposal(id),
        s.after_all(requests).proposals->0[id].id == s.proposals->0[id].id,
        s.after_all(requests).proposals->0[id].kind == s.proposals->0[id].kind,
        s.after_all(requests).proposals->0[id].parent == s.proposals->0[id].parent,
        s.after_all(requests).proposals->0[id].status == s.proposals->0[id].status,
        s.after_all(requests).proposals->0[id].voting_end_time
            == s.proposals->0[id].voting_end_time,
        s.proposals->0[id].voters.subset_of(s.after_all(requests).proposals->0[id].voters),
    decreases requests.len(),
{
    if requests.len() > 0 {
        law_proposals_stay(s, requests.drop_last(), id);
    }
}

/// Every proposal that a request creates is open for voting, and no request
/// changes the status of a proposal.
pub proof fn law_created_open(
    s: LedgerView,
    authorized: bool,
    id: u64,
    kind: ProposalKind,
    parent: u64,
    voting_end_time: Option<u64>,
)
    requires
        s.create_outcome(authorized, id, kind, parent) is Ok,
    ensures
        s.after_create(authorized, id, kind, parent, voting_end_time).proposals->0[id].status
            == Status::OpenVoting,
        s.after_create(authorized, id, kind, parent, voting_end_time).proposals->0[id].votes == 0,
        s.after_create(authorized, id, kind, parent, voting_end_time).proposals->0[id].voters
            == Set::<Address>::empty(),
{
}

/// Ids are unique: once a proposal `id` is stored, whatever has been asked
/// since, `init` included, the admin's request to create a proposal with this id is refused
/// as a duplicate, and the ledger stays as it is.
pub proof fn law_second_create_is_refused(
    s: LedgerView,
    between: Seq<Request>,
    id: u64,
    kind: ProposalKind,
    parent: u64,
    voting_end_time: Option<u64>,
)
    requires
        s.admin is Some,
        s.has_proposal(id),
    ensures
        s.after_all(between).create_outcome(true, id, kind, parent) == Err::<(), _>(
            Error::DuplicatedEntity,
        ),
        s.after_all(between).after_create(true, id, kind, parent, voting_end_time) == s.after_all(
            between,
        ),
{
    law_proposals_stay(s, between, id);
    law_admin_never_rotates(s, between);
}

/// A created proposal is stored, so the law of unique ids holds from the
/// first creation on.
pub proof fn law_create_stores(
    s: LedgerView,
    authorized: bool,
    id: u64,
    kind: ProposalKind,
    parent: u64,
    voting_end_time: Option<u64>,
)
    requires
        s.create_outcome(authorized, id, kind, parent) is Ok,
    ensures
        s.after_create(authorized, id, kind, parent, voting_end_time).has_proposal(id),
        s.after_create(authorized, id, kind, parent, voting_end_time).admin is Some,
{
}

/// The parent of an RFC must be a stored PRD: the admin's request to create
/// an RFC with a new id is refused with `NotFound` where no proposal has the
/// parent's id, and with `ParentNotPRD` where that proposal is an RFC; else
/// it is accepted. A refused request leaves the ledger as it is.
pub proof fn law_rfc_needs_a_prd(s: LedgerView, id: u64, parent: u64, voting_end_time: Option<u64>)
    requires
        s.admin is Some,
        s.proposals is Some,
        !s.has_proposal(id),
    ensures
        !s.has_proposal(parent) ==> s.create_outcome(true, id, ProposalKind::RFC, parent) == Err::<
            (),
            _,
        >(Error::NotFound),
        s.has_proposal(parent) && s.proposals->0[parent].kind is RFC ==> s.create_outcome(
            true,
            id,
            ProposalKind::RFC,
            parent,
        ) == Err::<(), _>(Error::ParentNotPRD),
        s.has_proposal(parent) && s.proposals->0[parent].kind is PRD ==> s.create_outcome(
            true,
            id,
            ProposalKind::RFC,
            parent,
        ) is Ok,
        !(s.has_proposal(parent) && s.proposals->0[parent].kind is PRD) ==> s.after_create(
            true,
            id,
            ProposalKind::RFC,
            parent,
            voting_end_time,
        ) == s,
{
}

/// One ballot per voter and proposal: once `voter` is among the voters of
/// the proposal `id`, whatever has been asked since, `init` included, no
/// ballot of `voter` on
/// it is accepted, and the attempt leaves the ledger as it is. The reason is
/// `AlreadyVoted` wherever the rules that come before allow the ballot: the
/// voter is registered with a weight that covers it, and voting has not
/// closed.
pub proof fn law_one_ballot(
    s: LedgerView,
    between: Seq<Request>,
    voter: Address,
    id: u64,
    weight: int,
    now: u64,
)
    requires
        s.has_proposal(id),
        s.proposals->0[id].voters.contains(voter),
    ensures
        s.after_all(between).vote_outcome(voter, id, weight, now) is Err,
        s.after_all(between).after_vote(voter, id, weight, now) == s.after_all(between),
        forall|ceiling: u32|
            s.after_all(between).registered_with(voter, ceiling) && magnitude(weight) <= ceiling
                && !s.after_all(between).proposals->0[id].closed_at(now) ==> s.after_all(
                between,
            ).vote_outcome(voter, id, weight, now) == Err::<(), _>(Error::AlreadyVoted),
{
    law_proposals_stay(s, between, id);
}

/// An accepted ballot puts its voter among the proposal's voters and adds
/// its weight to the tally, so the law of one ballot holds from the first
/// ballot on. The voter was registered with a weight that covers the ballot.
pub proof fn law_accepted_ballot(s: LedgerView, voter: Address, id: u64, weight: int, now: u64)
    requires
        s.vote_outcome(voter, id, weight, now) is Ok,
    ensures
        s.after_vote(voter, id, weight, now).has_proposal(id),
        s.after_vote(voter, id, weight, now).proposals->0[id].voters == s.proposals->0[id].voters.insert(
            voter,
        ),
        s.after_vote(voter, id, weight, now).proposals->0[id].votes == s.proposals->0[id].votes
            + weight,
        !s.proposals->0[id].voters.contains(voter),
        exists|ceiling: u32| #[trigger]
            s.registered_with(voter, ceiling) && magnitude(weight) <= ceiling,
{
    let ceiling = s.voters->0[voter]->0;
    assert(s.registered_with(voter, ceiling));
}

/// The registered weight is a ceiling: on an open proposal on which `voter`
/// has not voted, a ballot is accepted exactly where its absolute value is
/// at most the weight with which `voter` is registered. Whatever the
/// proposal, a ballot of one more than that weight, for or against, is
/// refused with `WeightExceeded` and changes nothing.
pub proof fn law_weight_ceiling(
    s: LedgerView,
    voter: Address,
    ceiling: u32,
    id: u64,
    weight: int,
    now: u64,
)
    requires
        s.registered_with(voter, ceiling),
    ensures
        s.has_proposal(id) && !s.proposals->0[id].closed_at(now) && !s.proposals->0[id].voters.contains(
            voter,
        ) ==> (s.vote_outcome(voter, id, weight, now) is Ok <==> magnitude(weight) <= ceiling),
        magnitude(weight) > ceiling ==> s.vote_outcome(voter, id, weight, now) == Err::<(), _>(
            Error::WeightExceeded,
        ),
        s.vote_outcome(voter, id, ceiling + 1, now) == Err::<(), _>(Error::WeightExceeded),
        s.vote_outcome(voter, id, -(ceiling + 1), now) == Err::<(), _>(Error::WeightExceeded),
        s.after_vote(voter, id, ceiling + 1, now) == s,
        s.after_vote(voter, id, -(ceiling + 1), now) == s,
{
}

/// The deadline closes the vote: where the proposal has a deadline, a
/// ballot that the registry allows is refused with `VotingClosed` at the
/// deadline and at every later time, and changes nothing; before the
/// deadline the ballot of an identity that has not voted is accepted.
pub proof fn law_deadline(
    s: LedgerView,
    voter: Address,
    ceiling: u32,
    id: u64,
    weight: int,
    now: u64,
    end: u64,
)
    requires
        s.registered_with(voter, ceiling),
        magnitude(weight) <= ceiling,
        s.has_proposal(id),
        s.proposals->0[id].voting_end_time == Some(end),
    ensures
        now >= end ==> s.vote_outcome(voter, id, weight, now) == Err::<(), _>(Error::VotingClosed),
        now >= end ==> s.after_vote(voter, id, weight, now) == s,
        now < end && !s.proposals->0[id].voters.contains(voter) ==> s.vote_outcome(
            voter,
            id,
            weight,
            now,
        ) is Ok,
{
}

/// A proposal without a deadline never closes.
pub proof fn law_no_deadline_never_closes(s: LedgerView, id: u64, now: u64)
    requires
        s.has_proposal(id),
        s.proposals->0[id].voting_end_time is None,
    ensures
        !s.proposals->0[id].closed_at(now),
{
}

/// Only the admin registers voters and creates proposals: on a ledger that
/// has an admin, the request of a caller that has not proved to be the admin
/// is refused with `Unauthorized`, and the ledger stays as it is.
pub proof fn law_admin_only(
    s: LedgerView,
    readable: bool,
    entries: Map<Address, Option<u32>>,
    id: u64,
    kind: ProposalKind,
    parent: u64,
    voting_end_time: Option<u64>,
)
    requires
        s.admin is Some,
    ensures
        s.add_voters_outcome(false, readable) == Err::<(), _>(Error::Unauthorized),
        s.after_add_voters(false, readable, entries) == s,
        s.create_outcome(false, id, kind, parent) == Err::<(), _>(Error::Unauthorized),
        s.after_create(false, id, kind, parent, voting_end_time) == s,
{
}

/// Voting needs no admin's right: what becomes of a ballot does not depend
/// on who the admin is.
pub proof fn law_vote_needs_no_admin(
    s: LedgerView,
    admin: Option<Address>,
    voter: Address,
    id: u64,
    weight: int,
    now: u64,
)
    ensures
        (LedgerView { admin, ..s }).vote_outcome(voter, id, weight, now) == s.vote_outcome(
            voter,
            id,
            weight,
            now,
        ),
        (LedgerView { admin, ..s }).after_vote(voter, id, weight, now) == (LedgerView {
            admin,
            ..s.after_vote(voter, id, weight, now)
        }),
{
}

/// Registering is an upsert: afterwards each named identity has the weight
/// that was given for it, every other identity has what it had, and nobody
/// has left the registry. Registering the same entries again changes
/// nothing.
pub proof fn law_register_upserts(s: LedgerView, entries: Map<Address, Option<u32>>, who: Address)
    requires
        s.add_voters_outcome(true, true) is Ok,
    ensures
        entries.contains_key(who) ==> s.after_add_voters(true, true, entries).voters->0[who]
            == entries[who],
        !entries.contains_key(who) && s.voters->0.contains_key(who) ==> s.after_add_voters(
            true,
            true,
            entries,
        ).voters->0[who] == s.voters->0[who],
        s.after_add_voters(true, true, entries).voters->0.contains_key(who) <==> (
        s.voters->0.contains_key(who) || entries.contains_key(who)),
        s.after_add_voters(true, true, entries).after_add_voters(true, true, entries)
            == s.after_add_voters(true, true, entries),
        s.after_add_voters(true, true, entries).proposals == s.proposals,
{
    let once = s.after_add_voters(true, true, entries);
    assert(once.voters->0.union_prefer_right(entries) =~= once.voters->0);
}

} // verus!
