//! The ledger's operations.
//!
//! A `ProposalContract` holds what the ledger keeps in the store: the admin,
//! the registry of voters and the proposals. Each operation holds its
//! request against the rules, and changes the ledger only where the request
//! is accepted.

use crate::error::Error;
use crate::host::{
    address_home, lists, readable, weights, weights_home, weights_new, weights_set,
    weights_try_get, weights_try_iter,
};
use crate::ledger::{deadline, magnitude, LedgerView};
use crate::proposal::{Proposal, ProposalView};
use crate::types::{DataKey, ProposalKind};
use soroban_sdk::{Address, Env};
use std::collections::HashMap;
use vstd::prelude::*;

verus! {

broadcast use vstd::std_specs::hash::group_hash_axioms;

/// The ledger: the admin, the registry and the proposals, each absent until
/// `init` has run, and present ever after.
///
/// All that a ledger holds belongs to one environment, in which the ledger
/// then lives. Each operation takes a ledger that lives in the environment
/// of what it is given, and leaves it there.
pub struct ProposalContract {
    admin: Option<Address>,
    voters: Option<soroban_sdk::Map<Address, u32>>,
    proposals: Option<HashMap<u64, Proposal>>,
}

/// The proposals of a store as mathematical values.
pub open spec fn store_view(store: Map<u64, Proposal>) -> Map<u64, ProposalView> {
    store.map_values(|p: Proposal| p@)
}

impl View for ProposalContract {
    type V = LedgerView;

    closed spec fn view(&self) -> LedgerView {
        LedgerView {
            admin: self.admin,
            voters: match self.voters {
                Some(registry) => Some(weights(registry)),
                None => None,
            },
            proposals: match self.proposals {
                Some(store) => Some(store_view(store@)),
                None => None,
            },
        }
    }
}

/// Whether the parts of which a ledger is put together all have the home
/// `env`.
pub open spec fn parts_live_in(
    admin: Option<Address>,
    voters: Option<soroban_sdk::Map<Address, u32>>,
    proposals: Option<Vec<Proposal>>,
    env: Env,
) -> bool {
    &&& admin matches Some(a) ==> address_home(a) == env
    &&& voters matches Some(registry) ==> weights_home(registry) == env
    &&& proposals matches Some(list) ==> forall|i: int|
        0 <= i < list@.len() ==> (#[trigger] list@[i]).home() == env
}

/// The proposals of a list as mathematical values.
pub open spec fn views(list: Seq<Proposal>) -> Seq<ProposalView> {
    list.map_values(|p: Proposal| p@)
}

/// The store that holds the proposals of `list`, each under its id. Where
/// two have the same id, the later one stays.
pub open spec fn collected(list: Seq<ProposalView>) -> Map<u64, ProposalView>
    decreases list.len(),
{
    if list.len() == 0 {
        Map::empty()
    } else {
        collected(list.drop_last()).insert(list.last().id, list.last())
    }
}

/// The identities among the first `n` entries of `list`.
pub open spec fn listed(list: Seq<(Address, u32)>, n: int) -> Set<Address> {
    Set::new(|k: Address| exists|j: int| 0 <= j < n && #[trigger] list[j].0 == k)
}

/// The absolute value of a ballot's weight.
pub fn weight_magnitude(weight: i32) -> (r: u32)
    ensures
        r == magnitude(weight as int),
{
    if weight < 0 {
        (-(weight as i64)) as u32
    } else {
        weight as u32
    }
}

impl ProposalContract {
    /// Whether all that the ledger holds has the home `env`: the admin, the
    /// registry and every proposal. A ledger that holds nothing lives in
    /// every environment.
    pub closed spec fn lives_in(&self, env: Env) -> bool {
        &&& self.admin matches Some(a) ==> address_home(a) == env
        &&& self.voters matches Some(registry) ==> weights_home(registry) == env
        &&& self.proposals matches Some(store) ==> forall|id: u64| #[trigger]
            store@.contains_key(id) ==> store@[id].home() == env
    }

    /// The ledger before it is initialised: nothing is stored.
    pub fn new() -> (c: ProposalContract)
        ensures
            c@ == LedgerView::blank(),
            forall|env: Env| #[trigger] c.lives_in(env),
    {
        ProposalContract { admin: None, voters: None, proposals: None }
    }

    /// Initialises the ledger, once: `admin` becomes the admin, and the
    /// ledger starts with an empty registry and no proposals.
    ///
    /// A ledger that has an admin stays as it is, whoever `admin` is: the
    /// admin is never replaced, and nothing that the ledger holds is dropped.
    /// On a ledger without an admin, a registry or proposals that are
    /// present stay as they are. `admin` is an identity of `env`, and the
    /// ledger lives there.
    pub fn init(&mut self, env: &Env, admin: Address)
        requires
            address_home(admin) == *env,
            old(self).lives_in(*env),
        ensures
            final(self)@ == old(self)@.after_init(admin),
            final(self).lives_in(*env),
    {
        if self.admin.is_some() {
            return ;
        }
        self.admin = Some(admin);
        if self.voters.is_none() {
            self.voters = Some(weights_new(env));
        }
        if self.proposals.is_none() {
            self.proposals = Some(HashMap::new());
            assert(store_view(Map::<u64, Proposal>::empty()) =~= Map::empty());
        }
    }

    /// Puts a ledger together from what the store holds: the admin, the
    /// registry and the list of proposals, each absent where the store has
    /// no such entry. The ledger lives where all of its parts do.
    pub fn from_parts(
        admin: Option<Address>,
        voters: Option<soroban_sdk::Map<Address, u32>>,
        proposals: Option<Vec<Proposal>>,
    ) -> (c: ProposalContract)
        ensures
            c@.admin == admin,
            c@.voters == match voters {
                Some(registry) => Some(weights(registry)),
                None => None,
            },
            c@.proposals == match proposals {
                Some(list) => Some(collected(views(list@))),
                None => None,
            },
            c@.keyed_by_id(),
            forall|env: Env|
                parts_live_in(admin, voters, proposals, env) ==> #[trigger] c.lives_in(env),
    {
        let store = match &proposals {
            None => None,
            Some(list) => {
                let mut store: HashMap<u64, Proposal> = HashMap::new();
                let mut i: usize = 0;
                assert(views(list@).take(0) =~= Seq::empty());
                assert(store_view(store@) =~= collected(views(list@).take(0)));
                while i < list.len()
                    invariant
                        i <= list.len(),
                        store_view(store@) == collected(views(list@).take(i as int)),
                        forall|id: u64| #[trigger]
                            store@.contains_key(id) ==> store@[id]@.id == id,
                        forall|id: u64| #[trigger]
                            store@.contains_key(id) ==> exists|j: int|
                                0 <= j < i && store@[id].home() == (#[trigger] list@[j]).home(),
                    decreases list.len() - i,
                {
                    let ghost before = store@;
                    let p = list[i].clone();
                    let id = p.id();
                    store.insert(id, p);
                    proof {
                        let done = views(list@).take(i as int + 1);
                        assert(done.drop_last() =~= views(list@).take(i as int));
                        assert(done.last() == p@);
                        assert(store_view(store@) =~= store_view(before).insert(id, p@));
                    }
                    i += 1;
                }
                assert(views(list@).take(i as int) =~= views(list@));
                Some(store)
            },
        };
        ProposalContract { admin, voters, proposals: store }
    }

    /// Whether the ledger holds the entity that is kept under `key`.
    pub fn holds(&self, key: DataKey) -> (r: bool)
        ensures
            r == self@.holds(key),
    {
        match key {
            DataKey::VoterList => self.voters.is_some(),
            DataKey::Admin => self.admin.is_some(),
            DataKey::ProposalStorage => self.proposals.is_some(),
        }
    }

    /// The admin, if the ledger has one: an identity of the environment in
    /// which the ledger lives.
    pub fn admin(&self) -> (r: Option<Address>)
        ensures
            r == self@.admin,
            forall|env: Env| #[trigger] self.lives_in(env) && r is Some ==> address_home(r->0) == env,
    {
        match &self.admin {
            Some(a) => Some(a.clone()),
            None => None,
        }
    }

    /// Registers the entries of `voters`: each identity gets the weight that
    /// stands under it, which replaces a weight that it had before. The
    /// identities that `voters` does not name keep theirs.
    ///
    /// The rules are tried in this order, and the first that is broken gives
    /// the error: the ledger has an admin (`KeyExpected`); the caller has
    /// proved to be the admin, which `authorized` says (`Unauthorized`); the
    /// ledger has a registry (`KeyExpected`); every key of `voters` is an
    /// address and every value a weight (`Conversion`). A refused request
    /// changes nothing. The ledger lives in the home of `voters`.
    pub fn add_voters(&mut self, authorized: bool, voters: &soroban_sdk::Map<Address, u32>) -> (r:
        Result<(), Error>)
        requires
            old(self).lives_in(weights_home(*voters)),
        ensures
            final(self).lives_in(weights_home(*voters)),
            r == old(self)@.add_voters_outcome(authorized, readable(*voters)),
            final(self)@ == old(self)@.after_add_voters(
                authorized,
                readable(*voters),
                weights(*voters),
            ),
    {
        if self.admin.is_none() {
            return Err(Error::KeyExpected);
        }
        if !authorized {
            return Err(Error::Unauthorized);
        }
        let mut registry = match &self.voters {
            None => {
                return Err(Error::KeyExpected);
            },
            Some(registry) => registry.clone(),
        };
        let list = match weights_try_iter(voters) {
            Err(e) => {
                return Err(Error::from(e));
            },
            Ok(list) => list,
        };
        let ghost before = weights(registry);
        let ghost entries = weights(*voters);
        let mut i: usize = 0;
        assert(before.union_prefer_right(entries.restrict(listed(list@, 0))) =~= before);
        while i < list.len()
            invariant
                i <= list.len(),
                lists(list@, entries),
                weights(registry) == before.union_prefer_right(
                    entries.restrict(listed(list@, i as int)),
                ),
                weights_home(registry) == weights_home(*voters),
                forall|j: int|
                    0 <= j < list@.len() ==> address_home((#[trigger] list@[j]).0) == weights_home(
                        *voters,
                    ),
            decreases list.len() - i,
        {
            let who = list[i].0.clone();
            let w = list[i].1;
            weights_set(&mut registry, who, w);
            proof {
                assert(entries.contains_key(list@[i as int].0));
                assert(listed(list@, i as int + 1) =~= listed(list@, i as int).insert(who));
                assert(weights(registry) =~= before.union_prefer_right(
                    entries.restrict(listed(list@, i as int + 1)),
                ));
            }
            i += 1;
        }
        assert(entries.restrict(listed(list@, i as int)) =~= entries);
        self.voters = Some(registry);
        Ok(())
    }

    /// The registry: every registered identity with its weight.
    /// Fails with `KeyExpected` where the ledger has no registry, as before
    /// it is initialised.
    pub fn get_voters(&self) -> (r: Result<soroban_sdk::Map<Address, u32>, Error>)
        ensures
            match r {
                Ok(registry) => self@.voters_outcome() == Ok::<_, Error>(weights(registry)),
                Err(e) => self@.voters_outcome() == Err::<Map<Address, Option<u32>>, _>(e),
            },
            forall|env: Env| #[trigger] self.lives_in(env) && r is Ok ==> weights_home(r->Ok_0) == env,
    {
        match &self.voters {
            Some(registry) => Ok(registry.clone()),
            None => Err(Error::KeyExpected),
        }
    }

    /// The proposal `id`. Fails with `KeyExpected` where the ledger has no
    /// proposals, as before it is initialised, and with `NotFound` where no
    /// proposal has this id.
    pub fn proposal(&self, id: u64) -> (r: Result<Proposal, Error>)
        ensures
            match r {
                Ok(p) => self@.proposal_outcome(id) == Ok::<_, Error>(p@),
                Err(e) => self@.proposal_outcome(id) == Err::<ProposalView, _>(e),
            },
            forall|env: Env| #[trigger] self.lives_in(env) && r is Ok ==> (r->Ok_0).home() == env,
    {
        match &self.proposals {
            None => Err(Error::KeyExpected),
            Some(store) => match store.get(&id) {
                None => Err(Error::NotFound),
                Some(p) => Ok(p.clone()),
            },
        }
    }

    /// The weight with which `voter` is registered, as far as a ballot of
    /// `weight` needs it: `KeyExpected` without a registry, `NotInVoterList`
    /// where `voter` is not registered, `Conversion` where its weight cannot
    /// be read, `WeightExceeded` where the ballot is heavier than it.
    fn check_weight(&self, voter: &Address, weight: i32) -> (r: Result<u32, Error>)
        requires
            self.lives_in(address_home(*voter)),
        ensures
            match r {
                Ok(ceiling) => self@.registered_with(*voter, ceiling) && magnitude(weight as int)
                    <= ceiling,
                Err(e) => match self@.voters {
                    None => e == Error::KeyExpected,
                    Some(registry) => if !registry.contains_key(*voter) {
                        e == Error::NotInVoterList
                    } else {
                        match registry[*voter] {
                            None => e == Error::Conversion,
                            Some(ceiling) => e == Error::WeightExceeded && magnitude(weight as int)
                                > ceiling,
                        }
                    },
                },
            },
    {
        match &self.voters {
            None => Err(Error::KeyExpected),
            Some(registry) => match weights_try_get(registry, voter) {
                Err(e) => Err(Error::from(e)),
                Ok(None) => Err(Error::NotInVoterList),
                Ok(Some(ceiling)) => {
                    if weight_magnitude(weight) > ceiling {
                        Err(Error::WeightExceeded)
                    } else {
                        Ok(ceiling)
                    }
                },
            },
        }
    }

    /// Whether a ballot of `weight` by `voter` on the proposal `id` at time
    /// `now` would be accepted, and if not, for which reason. Nothing is
    /// changed. The ledger lives in the home of `voter`.
    pub fn can_vote(&self, voter: &Address, id: u64, weight: i32, now: u64) -> (r: Result<
        (),
        Error,
    >)
        requires
            self.lives_in(address_home(*voter)),
        ensures
            r == self@.vote_outcome(*voter, id, weight as int, now),
    {
        match self.check_weight(voter, weight) {
            Err(e) => Err(e),
            Ok(_) => match &self.proposals {
                None => Err(Error::KeyExpected),
                Some(store) => match store.get(&id) {
                    None => Err(Error::NotFound),
                    Some(p) => p.can_vote(now, voter),
                },
            },
        }
    }

    /// Casts a ballot of `weight` by `voter` on the proposal `id` at time
    /// `now`.
    ///
    /// The rules are tried in this order, and the first that is broken gives
    /// the error: the ledger has a registry (`KeyExpected`); `voter` is
    /// registered (`NotInVoterList`); its registered weight can be read
    /// (`Conversion`); the absolute value of `weight` is at most that weight
    /// (`WeightExceeded`); the ledger has proposals (`KeyExpected`); the
    /// proposal exists (`NotFound`); voting has not closed (`VotingClosed`);
    /// `voter` has not voted on it (`AlreadyVoted`). A refused ballot changes
    /// nothing. An accepted one adds `weight` to the
    /// proposal's tally and `voter` to its voters, and nothing else changes.
    /// The ledger lives in the home of `voter`, and the tally must have room
    /// for an accepted ballot.
    pub fn vote(&mut self, voter: Address, id: u64, weight: i32, now: u64) -> (r: Result<
        (),
        Error,
    >)
        requires
            old(self).lives_in(address_home(voter)),
            old(self)@.vote_outcome(voter, id, weight as int, now) is Ok ==> old(
                self,
            )@.tally_has_room(id, weight as int),
        ensures
            final(self).lives_in(address_home(voter)),
            r == old(self)@.vote_outcome(voter, id, weight as int, now),
            final(self)@ == old(self)@.after_vote(voter, id, weight as int, now),
    {
        match self.check_weight(&voter, weight) {
            Err(e) => Err(e),
            Ok(_) => match self.proposals.take() {
                None => Err(Error::KeyExpected),
                Some(mut store) => {
                    let ghost before = store@;
                    let r = match store.remove(&id) {
                        None => Err(Error::NotFound),
                        Some(mut p) => {
                            let r = p.vote(now, voter, weight);
                            store.insert(id, p);
                            assert(store_view(store@) =~= store_view(before).insert(id, p@));
                            r
                        },
                    };
                    assert(r is Err ==> store_view(store@) =~= store_view(before));
                    self.proposals = Some(store);
                    r
                },
            },
        }
    }

    /// Whether the tally of the proposal `id` has room for a ballot of
    /// `weight`. Where no proposal has this id, there is nothing to overflow.
    pub fn tally_has_room(&self, id: u64, weight: i32) -> (r: bool)
        ensures
            r == self@.tally_has_room(id, weight as int),
    {
        match &self.proposals {
            None => true,
            Some(store) => match store.get(&id) {
                None => true,
                Some(p) => p.has_room(weight),
            },
        }
    }

    /// Casts a ballot as `vote` does, whatever the tally holds: where the
    /// ballot would be accepted and the tally has no room for it, the result
    /// is `None` and nothing is changed.
    pub fn checked_vote(&mut self, voter: Address, id: u64, weight: i32, now: u64) -> (r: Option<
        Result<(), Error>,
    >)
        requires
            old(self).lives_in(address_home(voter)),
        ensures
            final(self).lives_in(address_home(voter)),
            r is None <==> old(self)@.vote_outcome(voter, id, weight as int, now) is Ok && !old(
                self,
            )@.tally_has_room(id, weight as int),
            r is None ==> final(self)@ == old(self)@,
            r matches Some(outcome) ==> outcome == old(self)@.vote_outcome(
                voter,
                id,
                weight as int,
                now,
            ) && final(self)@ == old(self)@.after_vote(voter, id, weight as int, now),
    {
        if self.can_vote(&voter, id, weight, now).is_ok() && !self.tally_has_room(id, weight) {
            return None;
        }
        Some(self.vote(voter, id, weight, now))
    }

    /// Whether a proposal `id` of the given kind under `parent` could be
    /// created, and if not, for which reason. Nothing is changed.
    pub fn can_create(&self, authorized: bool, id: u64, kind: ProposalKind, parent: u64) -> (r:
        Result<(), Error>)
        ensures
            r == self@.create_outcome(authorized, id, kind, parent),
    {
        if self.admin.is_none() {
            return Err(Error::KeyExpected);
        }
        if !authorized {
            return Err(Error::Unauthorized);
        }
        match &self.proposals {
            None => Err(Error::KeyExpected),
            Some(store) => {
                if store.contains_key(&id) {
                    return Err(Error::DuplicatedEntity);
                }
                match kind {
                    ProposalKind::PRD => Ok(()),
                    ProposalKind::RFC => match store.get(&parent) {
                        None => Err(Error::NotFound),
                        Some(p) => match p.kind() {
                            ProposalKind::PRD => Ok(()),
                            ProposalKind::RFC => Err(Error::ParentNotPRD),
                        },
                    },
                }
            },
        }
    }

    /// Creates the proposal `id`: open for voting, with no ballot, closing
    /// `duration` after `now`, or never where there is no duration.
    ///
    /// The rules are tried in this order, and the first that is broken gives
    /// the error: the ledger has an admin (`KeyExpected`); the caller has
    /// proved to be the admin, which `authorized` says (`Unauthorized`); the
    /// ledger has proposals (`KeyExpected`); no proposal has this id
    /// (`DuplicatedEntity`); for an RFC, `parent` is the id of a proposal
    /// (`NotFound`), and that proposal is a PRD (`ParentNotPRD`). For a PRD `parent` is not looked at, and no
    /// parent is recorded. A refused request changes nothing. The ledger
    /// lives in `env`, and the deadline of an accepted request must be a time
    /// that can be written.
    pub fn create_proposal(
        &mut self,
        env: &Env,
        authorized: bool,
        id: u64,
        kind: ProposalKind,
        parent: u64,
        duration: Option<u64>,
        now: u64,
    ) -> (r: Result<(), Error>)
        requires
            old(self).lives_in(*env),
            old(self)@.create_outcome(authorized, id, kind, parent) is Ok ==> (duration matches Some(
                d,
            ) ==> now + d <= u64::MAX),
        ensures
            final(self).lives_in(*env),
            r == old(self)@.create_outcome(authorized, id, kind, parent),
            final(self)@ == old(self)@.after_create(
                authorized,
                id,
                kind,
                parent,
                deadline(now, duration),
            ),
    {
        match self.can_create(authorized, id, kind, parent) {
            Err(e) => Err(e),
            Ok(()) => match self.proposals.take() {
                None => Err(Error::KeyExpected),
                Some(mut store) => {
                    let ghost before = store@;
                    let voting_end_time = match duration {
                        Some(d) => Some(now + d),
                        None => None,
                    };
                    let recorded = match kind {
                        ProposalKind::PRD => 0,
                        ProposalKind::RFC => parent,
                    };
                    let p = Proposal::new(env, id, kind, recorded, voting_end_time);
                    store.insert(id, p);
                    assert(store_view(store@) =~= store_view(before).insert(id, p@));
                    self.proposals = Some(store);
                    Ok(())
                },
            },
        }
    }

    /// Creates a proposal as `create_proposal` does, whatever the deadline:
    /// where the request would be accepted and `duration` after `now` is no
    /// time that can be written, the result is `None` and nothing is changed.
    pub fn checked_create_proposal(
        &mut self,
        env: &Env,
        authorized: bool,
        id: u64,
        kind: ProposalKind,
        parent: u64,
        duration: Option<u64>,
        now: u64,
    ) -> (r: Option<Result<(), Error>>)
        requires
            old(self).lives_in(*env),
        ensures
            final(self).lives_in(*env),
            r is None <==> old(self)@.create_outcome(authorized, id, kind, parent) is Ok && (
            duration matches Some(d) && now + d > u64::MAX),
            r is None ==> final(self)@ == old(self)@,
            r matches Some(outcome) ==> outcome == old(self)@.create_outcome(
                authorized,
                id,
                kind,
                parent,
            ) && final(self)@ == old(self)@.after_create(
                authorized,
                id,
                kind,
                parent,
                deadline(now, duration),
            ),
    {
        if self.can_create(authorized, id, kind, parent).is_ok() {
            if let Some(d) = duration {
                if d > u64::MAX - now {
                    return None;
                }
            }
        }
        Some(self.create_proposal(env, authorized, id, kind, parent, duration, now))
    }

    /// Creates the top-level proposal `id`, as `create_proposal` does for a
    /// PRD.
    pub fn create_prd(
        &mut self,
        env: &Env,
        authorized: bool,
        id: u64,
        duration: Option<u64>,
        now: u64,
    ) -> (r: Result<(), Error>)
        requires
            old(self).lives_in(*env),
            old(self)@.create_outcome(authorized, id, ProposalKind::PRD, 0) is Ok ==> (
            duration matches Some(d) ==> now + d <= u64::MAX),
        ensures
            final(self).lives_in(*env),
            r == old(self)@.create_outcome(authorized, id, ProposalKind::PRD, 0),
            final(self)@ == old(self)@.after_create(
                authorized,
                id,
                ProposalKind::PRD,
                0,
                deadline(now, duration),
            ),
    {
        self.create_proposal(env, authorized, id, ProposalKind::PRD, 0, duration, now)
    }

    /// Creates the proposal `id` as an RFC of the PRD `prd_id`, as
    /// `create_proposal` does for an RFC under that parent.
    pub fn create_rfc(
        &mut self,
        env: &Env,
        authorized: bool,
        prd_id: u64,
        id: u64,
        duration: Option<u64>,
        now: u64,
    ) -> (r: Result<(), Error>)
        requires
            old(self).lives_in(*env),
            old(self)@.create_outcome(authorized, id, ProposalKind::RFC, prd_id) is Ok ==> (
            duration matches Some(d) ==> now + d <= u64::MAX),
        ensures
            final(self).lives_in(*env),
            r == old(self)@.create_outcome(authorized, id, ProposalKind::RFC, prd_id),
            final(self)@ == old(self)@.after_create(
                authorized,
                id,
                ProposalKind::RFC,
                prd_id,
                deadline(now, duration),
            ),
    {
        self.create_proposal(env, authorized, id, ProposalKind::RFC, prd_id, duration, now)
    }
}

} // verus!
