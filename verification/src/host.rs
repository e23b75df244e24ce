//! The host's identities and dictionaries, as far as the ledger uses them.
//!
//! Nothing in this file is proved. Each item states what the host library
//! does, and the rest of the crate is verified against these statements.
//!
//! Every address and every dictionary belongs to one environment, its home,
//! and means something there only. An address is looked up in a dictionary,
//! or put into it, only where both have the same home: this is what each
//! such item requires, as it holds of all values within one invocation of a
//! contract.

use soroban_sdk::{Address, ConversionError, Env};
use vstd::prelude::*;

verus! {

/// `soroban_sdk::Address`: an identity. Two addresses are equal when they
/// have the same home and name the same account or contract.
#[verifier::external_type_specification]
#[verifier::external_body]
pub struct ExAddress(soroban_sdk::Address);

/// `soroban_sdk::Env`: the environment in which host objects live. Two
/// values are equal when they are the same environment.
#[verifier::external_type_specification]
#[verifier::external_body]
pub struct ExEnv(soroban_sdk::Env);

/// `soroban_sdk::ConversionError`: a host value could not be read as the
/// type that was asked for.
#[verifier::external_type_specification]
#[verifier::external_body]
pub struct ExConversionError(soroban_sdk::ConversionError);

/// `soroban_sdk::Map`: a dictionary kept by the host, with at most one
/// entry per key.
#[verifier::external_type_specification]
#[verifier::external_body]
#[verifier::reject_recursive_types(K)]
#[verifier::reject_recursive_types(V)]
pub struct ExMap<K, V>(soroban_sdk::Map<K, V>);

/// The environment that an address belongs to.
pub uninterp spec fn address_home(a: Address) -> Env;

/// The environment that a ballot dictionary belongs to.
pub uninterp spec fn ballots_home(m: soroban_sdk::Map<Address, bool>) -> Env;

/// The environment that a weight dictionary belongs to.
pub uninterp spec fn weights_home(m: soroban_sdk::Map<Address, u32>) -> Env;

/// The addresses that are keys of a ballot dictionary.
pub uninterp spec fn ballots(m: soroban_sdk::Map<Address, bool>) -> Set<Address>;

/// What a weight dictionary holds under each address that is a key of it:
/// `Some(w)` where the stored value reads as the `u32` `w`, `None` where it
/// does not read as a `u32`.
pub uninterp spec fn weights(m: soroban_sdk::Map<Address, u32>) -> Map<Address, Option<u32>>;

/// Whether every key of a weight dictionary reads as an address and every
/// value as a `u32`.
pub uninterp spec fn readable(m: soroban_sdk::Map<Address, u32>) -> bool;

/// The content of a weight dictionary without keys.
pub open spec fn no_weights() -> Map<Address, Option<u32>> {
    Map::empty()
}

/// Whether `list` holds exactly the entries of `entries`, each key once.
pub open spec fn lists(list: Seq<(Address, u32)>, entries: Map<Address, Option<u32>>) -> bool {
    &&& forall|i: int|
        0 <= i < list.len() ==> entries.contains_key(#[trigger] list[i].0) && entries[list[i].0]
            == Some(list[i].1)
    &&& forall|k: Address| #[trigger]
        entries.contains_key(k) ==> exists|i: int| 0 <= i < list.len() && #[trigger] list[i].0 == k
    &&& forall|i: int, j: int|
        0 <= i < j < list.len() ==> #[trigger] list[i].0 != #[trigger] list[j].0
}

/// `Clone::clone` of `soroban_sdk::Address`: the copy names the same
/// identity in the same environment.
pub assume_specification[ <soroban_sdk::Address as Clone>::clone ](a: &Address) -> (r: Address)
    ensures
        r == *a,
;

/// `Clone::clone` of `soroban_sdk::Map`: the copy is the same dictionary in
/// the same environment.
pub assume_specification<K: Clone, V: Clone>[ <soroban_sdk::Map<K, V> as Clone>::clone ](
    m: &soroban_sdk::Map<K, V>,
) -> (r: soroban_sdk::Map<K, V>)
    ensures
        r == *m,
;

/// `Map::new` at ballots: the new dictionary has no key, and `env` is its
/// home.
#[verifier::external_body]
pub(crate) fn ballots_new(env: &Env) -> (m: soroban_sdk::Map<Address, bool>)
    ensures
        ballots(m) == Set::<Address>::empty(),
        ballots_home(m) == *env,
{
    soroban_sdk::Map::new(env)
}

/// `Map::contains_key` at ballots, for an address of the dictionary's home:
/// whether `who` is a key.
#[verifier::external_body]
pub(crate) fn ballots_contains(m: &soroban_sdk::Map<Address, bool>, who: &Address) -> (r: bool)
    requires
        address_home(*who) == ballots_home(*m),
    ensures
        r == ballots(*m).contains(*who),
{
    m.contains_key(who.clone())
}

/// `Map::set` at ballots, for an address of the dictionary's home: `who`
/// becomes a key, and the other keys stay. The dictionary keeps its home.
#[verifier::external_body]
pub(crate) fn ballots_set(m: &mut soroban_sdk::Map<Address, bool>, who: Address, mark: bool)
    requires
        address_home(who) == ballots_home(*old(m)),
    ensures
        ballots(*final(m)) == ballots(*old(m)).insert(who),
        ballots_home(*final(m)) == ballots_home(*old(m)),
{
    m.set(who, mark)
}

/// `Map::new` at weights: the new dictionary has no key, and `env` is its
/// home.
#[verifier::external_body]
pub(crate) fn weights_new(env: &Env) -> (m: soroban_sdk::Map<Address, u32>)
    ensures
        weights(m) == no_weights(),
        weights_home(m) == *env,
{
    soroban_sdk::Map::new(env)
}

/// `Map::try_get` at weights, for an address of the dictionary's home:
/// `Ok(None)` where `who` is no key, `Ok(Some(w))` where the value under
/// `who` reads as `w`, an error where it does not read as a `u32`.
#[verifier::external_body]
pub(crate) fn weights_try_get(m: &soroban_sdk::Map<Address, u32>, who: &Address) -> (r: Result<
    Option<u32>,
    ConversionError,
>)
    requires
        address_home(*who) == weights_home(*m),
    ensures
        match r {
            Ok(Some(w)) => weights(*m).contains_key(*who) && weights(*m)[*who] == Some(w),
            Ok(None) => !weights(*m).contains_key(*who),
            Err(_) => weights(*m).contains_key(*who) && weights(*m)[*who] is None,
        },
{
    m.try_get(who.clone())
}

/// `Map::set` at weights, for an address of the dictionary's home: the value
/// under `who` becomes `w`, a former value is replaced, and the other
/// entries stay. The dictionary keeps its home.
#[verifier::external_body]
pub(crate) fn weights_set(m: &mut soroban_sdk::Map<Address, u32>, who: Address, w: u32)
    requires
        address_home(who) == weights_home(*old(m)),
    ensures
        weights(*final(m)) == weights(*old(m)).insert(who, Some(w)),
        weights_home(*final(m)) == weights_home(*old(m)),
{
    m.set(who, w)
}

/// `Map::try_iter` at weights, collected: the entries, each key once, where
/// the dictionary is readable, and an error where it is not. Each address
/// that comes out has the dictionary's home.
#[verifier::external_body]
pub(crate) fn weights_try_iter(m: &soroban_sdk::Map<Address, u32>) -> (r: Result<
    Vec<(Address, u32)>,
    ConversionError,
>)
    ensures
        r is Ok <==> readable(*m),
        r matches Ok(list) ==> lists(list@, weights(*m)),
        r matches Ok(list) ==> forall|i: int|
            0 <= i < list@.len() ==> address_home((#[trigger] list@[i]).0) == weights_home(*m),
{
    m.try_iter().collect()
}

} // verus!
