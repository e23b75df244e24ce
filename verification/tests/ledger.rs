use proposals::{Error, Proposal, ProposalContract, ProposalKind, Status};
use soroban_sdk::testutils::{Address as _, Ledger as _};
use soroban_sdk::{Address, Env};

fn setup_test() -> (Env, ProposalContract, Address) {
    let env = Env::default();
    let mut contract = ProposalContract::new();
    let admin = Address::generate(&env);
    contract.init(&env, admin.clone());
    (env, contract, admin)
}

fn advance_ledger_time_in(time: u64, env: &mut Env) {
    let mut ledger_info = env.ledger().get();
    ledger_info.timestamp = ledger_info.timestamp + time;
    env.ledger().set(ledger_info)
}

#[test]
fn voters_add_and_retrieve_works() {
    let (env, mut contract, _) = setup_test();

    let mut voters = soroban_sdk::Map::<Address, u32>::new(&env);
    let voter_1 = Address::generate(&env);
    let voter_2 = Address::generate(&env);
    voters.set(voter_1.clone(), 1);
    voters.set(voter_2, 1);
    assert_eq!(contract.add_voters(true, &voters), Ok(()));

    let voters_reg = contract.get_voters().unwrap();

    assert_eq!(2, voters_reg.len());
    assert_eq!(
        voters.get(voter_1.clone()).unwrap(),
        voters_reg.get(voter_1.clone()).unwrap()
    );
}

#[test]
fn voter_list_no_admin_cant_vote() {
    let (env, mut contract, _) = setup_test();

    let mut voters = soroban_sdk::Map::<Address, u32>::new(&env);
    voters.set(Address::generate(&env), 1);
    assert_eq!(contract.add_voters(false, &voters), Err(Error::Unauthorized));
    assert_eq!(contract.get_voters().unwrap().len(), 0);
}

#[test]
fn admin_auth_is_checked_adding_voters() {
    let (env, mut contract, admin) = setup_test();

    let mut voters = soroban_sdk::Map::<Address, u32>::new(&env);
    voters.set(Address::generate(&env), 1);

    assert_eq!(contract.add_voters(false, &voters), Err(Error::Unauthorized));
    assert_eq!(contract.add_voters(true, &voters), Ok(()));

    assert_eq!(contract.admin(), Some(admin));
    assert_eq!(contract.get_voters().unwrap(), voters);
}

#[test]
fn proposal_creation_and_query() {
    let (env, mut contract, _) = setup_test();

    let mut voters = soroban_sdk::Map::<Address, u32>::new(&env);
    voters.set(Address::generate(&env), 1);
    voters.set(Address::generate(&env), 1);

    assert_eq!(contract.add_voters(true, &voters), Ok(()));

    let id = 1001u64;
    let now = env.ledger().timestamp();
    assert_eq!(contract.create_prd(&env, true, id, Some(3600), now), Ok(()));

    let state = contract.proposal(id).unwrap();

    assert_eq!(
        Proposal::from_parts(
            id,
            ProposalKind::PRD,
            0,
            Status::OpenVoting,
            0,
            soroban_sdk::Map::<Address, bool>::new(&env),
            Some(env.ledger().timestamp() + 3600),
        ),
        state
    );
}

#[test]
fn cannot_create_same_id_proposals() {
    let (env, mut contract, _) = setup_test();
    let now = env.ledger().timestamp();

    let id = 1001u64;
    assert_eq!(contract.create_prd(&env, true, id, Some(3600), now), Ok(()));
    let result = contract.create_prd(&env, true, id, Some(3600), now);
    assert_eq!(result, Err(Error::DuplicatedEntity));
    assert_eq!(result.unwrap_err().code(), 7);
}

#[test]
fn only_admin_can_create_proposals() {
    let (env, mut contract, _) = setup_test();
    let now = env.ledger().timestamp();
    assert_eq!(
        contract.create_prd(&env, false, 1, Some(3600), now),
        Err(Error::Unauthorized)
    );
    assert_eq!(contract.proposal(1), Err(Error::NotFound));
}

#[test]
fn voter_can_vote_proposals() {
    let (env, mut contract, _) = setup_test();
    let voter = Address::generate(&env);

    let mut voters = soroban_sdk::Map::<Address, u32>::new(&env);
    voters.set(voter.clone(), 2);
    assert_eq!(contract.add_voters(true, &voters), Ok(()));

    let id = 12;
    let now = env.ledger().timestamp();

    assert_eq!(contract.create_prd(&env, true, id, Some(3600), now), Ok(()));
    assert_eq!(contract.vote(voter.clone(), id, 2, now), Ok(()));

    let state = contract.proposal(id).unwrap();

    let mut expected_voters = soroban_sdk::Map::<Address, bool>::new(&env);
    expected_voters.set(voter, true);

    assert_eq!(
        Proposal::from_parts(
            id,
            ProposalKind::PRD,
            0,
            Status::OpenVoting,
            2,
            expected_voters,
            Some(env.ledger().timestamp() + 3600),
        ),
        state
    );
}

#[test]
fn voter_cannot_vote_a_proposal_twice() {
    let (env, mut contract, _) = setup_test();
    let voter = Address::generate(&env);

    let mut voters = soroban_sdk::Map::<Address, u32>::new(&env);
    voters.set(voter.clone(), 1);
    assert_eq!(contract.add_voters(true, &voters), Ok(()));

    let prd_id = 12;
    let now = env.ledger().timestamp();

    assert_eq!(contract.create_prd(&env, true, prd_id, Some(3600), now), Ok(()));
    assert_eq!(contract.vote(voter.clone(), prd_id, 1, now), Ok(()));
    let result = contract.vote(voter.clone(), prd_id, 1, now);
    assert_eq!(result, Err(Error::AlreadyVoted));
    assert_eq!(result.unwrap_err().code(), 4);
    assert_eq!(contract.proposal(prd_id).unwrap().votes(), 1);
}

#[test]
fn not_in_voter_list_address_cant_vote() {
    let (env, mut contract, _) = setup_test();

    let mut voters = soroban_sdk::Map::<Address, u32>::new(&env);
    voters.set(Address::generate(&env), 1);
    assert_eq!(contract.add_voters(true, &voters), Ok(()));

    let prd_id = 12;
    let now = env.ledger().timestamp();

    assert_eq!(contract.create_prd(&env, true, prd_id, Some(3600), now), Ok(()));
    let result = contract.vote(Address::generate(&env), prd_id, 1, now);
    assert_eq!(result, Err(Error::NotInVoterList));
    assert_eq!(result.unwrap_err().code(), 5);
}

#[test]
fn voter_cannot_vote_more_than_its_total_weight_upper_bound() {
    let (env, mut contract, _) = setup_test();
    let voter = Address::generate(&env);

    let mut voters = soroban_sdk::Map::<Address, u32>::new(&env);
    voters.set(voter.clone(), 2);
    assert_eq!(contract.add_voters(true, &voters), Ok(()));

    let prd_id = 12;
    let now = env.ledger().timestamp();

    assert_eq!(contract.create_prd(&env, true, prd_id, Some(3600), now), Ok(()));
    let result = contract.vote(voter, prd_id, 3, now);
    assert_eq!(result, Err(Error::WeightExceeded));
    assert_eq!(result.unwrap_err().code(), 6);
}

#[test]
fn voter_cannot_vote_more_than_its_total_weight_lower_bound() {
    let (env, mut contract, _) = setup_test();
    let voter = Address::generate(&env);

    let mut voters = soroban_sdk::Map::<Address, u32>::new(&env);
    voters.set(voter.clone(), 2);
    assert_eq!(contract.add_voters(true, &voters), Ok(()));

    let prd_id = 12;
    let now = env.ledger().timestamp();

    assert_eq!(contract.create_prd(&env, true, prd_id, Some(3600), now), Ok(()));
    let result = contract.vote(voter, prd_id, -3, now);
    assert_eq!(result, Err(Error::WeightExceeded));
    assert_eq!(result.unwrap_err().code(), 6);
}

#[test]
fn rfc_proposal_creation() {
    let (env, mut contract, _) = setup_test();
    let now = env.ledger().timestamp();

    let prd_id = 1001u64;
    assert_eq!(contract.create_prd(&env, true, prd_id, Some(3600), now), Ok(()));

    let rfc_id = 1002u64;

    assert_eq!(
        contract.create_rfc(&env, true, prd_id, rfc_id, Some(3600), now),
        Ok(())
    );

    let state = contract.proposal(rfc_id).unwrap();

    assert_eq!(
        Proposal::from_parts(
            rfc_id,
            ProposalKind::RFC,
            prd_id,
            Status::OpenVoting,
            0,
            soroban_sdk::Map::<Address, bool>::new(&env),
            Some(env.ledger().timestamp() + 3600),
        ),
        state
    );
}

#[test]
fn cannot_create_an_rfc_with_non_existing_parent_prd() {
    let (env, mut contract, _) = setup_test();
    let now = env.ledger().timestamp();

    let id = 1001u64;
    let result = contract.create_rfc(&env, true, id, 1, Some(3600), now);
    assert_eq!(result, Err(Error::NotFound));
    assert_eq!(result.unwrap_err().code(), 3);
}

#[test]
fn no_prd_proposals_cannot_be_parent() {
    let (env, mut contract, _) = setup_test();
    let now = env.ledger().timestamp();

    assert_eq!(contract.create_prd(&env, true, 1, Some(3600), now), Ok(()));
    assert_eq!(contract.create_rfc(&env, true, 1, 2, Some(3600), now), Ok(()));
    let result = contract.create_rfc(&env, true, 2, 3, Some(3600), now);
    assert_eq!(result, Err(Error::ParentNotPRD));
    assert_eq!(result.unwrap_err().code(), 8);
}

#[test]
fn cannot_vote_if_voting_time_exceeded() {
    let (mut env, _, _) = setup_test();

    let mut proposal = Proposal::from_parts(
        1,
        ProposalKind::PRD,
        0,
        Status::OpenVoting,
        0,
        soroban_sdk::Map::<Address, bool>::new(&env),
        Some(env.ledger().timestamp() + 3600),
    );

    advance_ledger_time_in(3600, &mut env);

    let result = proposal.vote(env.ledger().timestamp(), Address::generate(&env), 1);

    assert_eq!(Err(Error::VotingClosed), result)
}
