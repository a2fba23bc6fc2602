//! The escrow lifecycle exercised end to end: creation, funding, release,
//! refund and the read operations, on both their success and refusal paths.

use escrow::contract::EscrowContract;
use escrow::ledger::Ledger;
use escrow::types::Address;
use escrow::types::EscrowError;
use escrow::types::EscrowStatus;

fn contract_address() -> Address {
    Address { id: 1 }
}

fn create_client() -> Address {
    Address { id: 2 }
}

fn create_freelancer() -> Address {
    Address { id: 3 }
}

/// A fresh environment with every authorization mocked, as a host-ledger
/// test harness provides.
fn test_env() -> Ledger {
    let mut env = Ledger::new(contract_address(), create_client(), 100_000);
    env.mock_all_auths();
    env
}

#[test]
fn test_initialize_escrow() {
    let mut env = test_env();
    let freelancer = create_freelancer();
    let amount: i128 = 100_000_000;
    let deadline = env.timestamp + 86400;
    let metadata = String::from("Test escrow");

    let escrow_id =
        EscrowContract::initialize(&mut env, freelancer, amount, deadline, metadata).unwrap();

    assert_eq!(escrow_id, 1);

    let escrow = EscrowContract::get_escrow(&env, escrow_id).unwrap();
    assert_eq!(escrow.id, 1);
    assert_eq!(escrow.amount, amount);
    assert_eq!(escrow.status, EscrowStatus::Created);
    assert_eq!(escrow.deadline, deadline);
}

#[test]
fn test_initialize_invalid_amount() {
    let mut env = test_env();
    let freelancer = create_freelancer();
    let amount: i128 = 0;
    let deadline = env.timestamp + 86400;
    let metadata = String::from("Test");

    let result = EscrowContract::initialize(&mut env, freelancer, amount, deadline, metadata);

    assert_eq!(result, Err(EscrowError::InvalidAmount));
}

#[test]
fn test_initialize_invalid_deadline() {
    let mut env = test_env();
    let freelancer = create_freelancer();
    let amount: i128 = 100_000_000;
    let deadline = env.timestamp - 1000;
    let metadata = String::from("Test");

    let result = EscrowContract::initialize(&mut env, freelancer, amount, deadline, metadata);

    assert_eq!(result, Err(EscrowError::InvalidDeadline));
}

#[test]
fn test_fund_escrow() {
    let mut env = test_env();
    let freelancer = create_freelancer();
    let amount: i128 = 100_000_000;
    let deadline = env.timestamp + 86400;
    let metadata = String::from("Test escrow");

    let escrow_id =
        EscrowContract::initialize(&mut env, freelancer, amount, deadline, metadata).unwrap();

    let result = EscrowContract::fund(&mut env, escrow_id);
    assert!(result.is_ok());

    let escrow = EscrowContract::get_escrow(&env, escrow_id).unwrap();
    assert_eq!(escrow.status, EscrowStatus::Funded);
}

#[test]
fn test_fund_already_funded_escrow() {
    let mut env = test_env();
    let freelancer = create_freelancer();
    let amount: i128 = 100_000_000;
    let deadline = env.timestamp + 86400;
    let metadata = String::from("Test escrow");

    let escrow_id =
        EscrowContract::initialize(&mut env, freelancer, amount, deadline, metadata).unwrap();

    EscrowContract::fund(&mut env, escrow_id).unwrap();

    let result = EscrowContract::fund(&mut env, escrow_id);
    assert_eq!(result, Err(EscrowError::EscrowAlreadyFunded));
}

#[test]
fn test_release_payment() {
    let mut env = test_env();
    let freelancer = create_freelancer();
    let amount: i128 = 100_000_000;
    let deadline = env.timestamp + 86400;
    let metadata = String::from("Test escrow");

    let escrow_id =
        EscrowContract::initialize(&mut env, freelancer, amount, deadline, metadata).unwrap();

    EscrowContract::fund(&mut env, escrow_id).unwrap();

    let result = EscrowContract::release_payment(&mut env, escrow_id);
    assert!(result.is_ok());

    let escrow = EscrowContract::get_escrow(&env, escrow_id).unwrap();
    assert_eq!(escrow.status, EscrowStatus::Released);
}

#[test]
fn test_release_not_funded_escrow() {
    let mut env = test_env();
    let freelancer = create_freelancer();
    let amount: i128 = 100_000_000;
    let deadline = env.timestamp + 86400;
    let metadata = String::from("Test escrow");

    let escrow_id =
        EscrowContract::initialize(&mut env, freelancer, amount, deadline, metadata).unwrap();

    let result = EscrowContract::release_payment(&mut env, escrow_id);
    assert_eq!(result, Err(EscrowError::EscrowNotFunded));
}

#[test]
fn test_refund_after_deadline() {
    let mut env = test_env();
    let freelancer = create_freelancer();
    let amount: i128 = 100_000_000;
    let deadline = env.timestamp + 100;
    let metadata = String::from("Test escrow");

    let escrow_id =
        EscrowContract::initialize(&mut env, freelancer, amount, deadline, metadata).unwrap();

    EscrowContract::fund(&mut env, escrow_id).unwrap();

    env.set_timestamp(deadline + 1000);

    let result = EscrowContract::refund(&mut env, escrow_id);
    assert!(result.is_ok());

    let escrow = EscrowContract::get_escrow(&env, escrow_id).unwrap();
    assert_eq!(escrow.status, EscrowStatus::Refunded);
}

#[test]
fn test_refund_before_deadline() {
    let mut env = test_env();
    let freelancer = create_freelancer();
    let amount: i128 = 100_000_000;
    let deadline = env.timestamp + 86400;
    let metadata = String::from("Test escrow");

    let escrow_id =
        EscrowContract::initialize(&mut env, freelancer, amount, deadline, metadata).unwrap();

    EscrowContract::fund(&mut env, escrow_id).unwrap();

    let result = EscrowContract::refund(&mut env, escrow_id);
    assert_eq!(result, Err(EscrowError::DeadlineNotPassed));
}

#[test]
fn test_get_escrow_count() {
    let mut env = test_env();
    let freelancer = create_freelancer();
    let amount: i128 = 100_000_000;
    let deadline = env.timestamp + 86400;
    let metadata = String::from("Test");

    assert_eq!(EscrowContract::get_escrow_count(&env), 0);

    EscrowContract::initialize(&mut env, freelancer, amount, deadline, metadata.clone()).unwrap();

    assert_eq!(EscrowContract::get_escrow_count(&env), 1);

    EscrowContract::initialize(&mut env, freelancer, amount, deadline, metadata).unwrap();

    assert_eq!(EscrowContract::get_escrow_count(&env), 2);
}

#[test]
fn test_get_status() {
    let mut env = test_env();
    let freelancer = create_freelancer();
    let amount: i128 = 100_000_000;
    let deadline = env.timestamp + 86400;
    let metadata = String::from("Test escrow");

    let escrow_id =
        EscrowContract::initialize(&mut env, freelancer, amount, deadline, metadata).unwrap();

    let status = EscrowContract::get_status(&env, escrow_id).unwrap();
    assert_eq!(status, EscrowStatus::Created);

    EscrowContract::fund(&mut env, escrow_id).unwrap();
    let status = EscrowContract::get_status(&env, escrow_id).unwrap();
    assert_eq!(status, EscrowStatus::Funded);
}
