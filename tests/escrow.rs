use funding_escrow::contract::{Contract, Transfer};
use funding_escrow::funding::{Funding, FundingError};
use funding_escrow::ledger::Ledger;

fn signer() -> String {
    "bob.near".to_string()
}

fn partial_of(contract: &Contract, key: &str) -> i8 {
    contract.funding_memo.get(&key.to_string()).unwrap().partial_funding_value
}

#[test]
fn test_create_funding() {
    let key = "bob_near";

    let mut contract = Contract::default();
    contract.create_funding(10, Some(key.to_string()), signer());

    assert_eq!(contract.funding_memo.get(&key.to_string()).unwrap().funding_value, 10);
}

#[test]
fn test_donate_funding() {
    let key1 = "bob_near";

    let mut contract = Contract::default();
    contract.create_funding(10, Some(key1.to_string()), signer());
    let mut record = contract
        .funding_memo
        .get(&key1.to_string())
        .unwrap_or_else(|| panic!("Record not found."));

    record.inc_funding_value(5).unwrap();
    contract.funding_memo.insert(&key1.to_string(), &record);

    assert_eq!(contract.funding_memo.get(&key1.to_string()).unwrap().partial_funding_value, 5)
}

#[test]
fn create_without_account_uses_signer() {
    let mut contract = Contract::default();
    contract.create_funding(7, None, signer());
    let record = contract.funding_memo.get(&signer()).unwrap();
    assert_eq!(record.funding_value, 7);
    assert_eq!(record.funding_account_id, "bob.near");
    assert_eq!(record.partial_funding_value, 0);
}

#[test]
fn create_records_owner_and_zero_partial() {
    let mut contract = Contract::default();
    contract.create_funding(-3, Some("alice_near".to_string()), signer());
    let record = contract.get_funding("alice_near".to_string()).unwrap();
    assert_eq!(record.funding_value, -3);
    assert_eq!(record.funding_account_id, "alice_near");
    assert_eq!(record.partial_funding_value, 0);
}

#[test]
fn create_again_resets_partial() {
    let mut contract = Contract::default();
    contract.create_funding(10, Some("bob_near".to_string()), signer());
    assert!(contract.donate_to_funding(6, "bob_near".to_string(), 1).unwrap().is_none());
    assert_eq!(partial_of(&contract, "bob_near"), 6);
    contract.create_funding(20, Some("bob_near".to_string()), signer());
    let record = contract.funding_memo.get(&"bob_near".to_string()).unwrap();
    assert_eq!(record.partial_funding_value, 0);
    assert_eq!(record.funding_value, 20);
}

#[test]
fn donations_accumulate() {
    let mut contract = Contract::default();
    contract.create_funding(100, Some("bob_near".to_string()), signer());
    let donations: [i8; 4] = [3, 5, -2, 9];
    let mut sum: i8 = 0;
    for d in donations {
        assert!(contract.donate_to_funding(d, "bob_near".to_string(), 0).unwrap().is_none());
        sum += d;
        assert_eq!(partial_of(&contract, "bob_near"), sum);
    }
    assert_eq!(partial_of(&contract, "bob_near"), 15);
}

#[test]
fn exact_match_releases_attached_value() {
    let mut contract = Contract::default();
    contract.create_funding(10, Some("bob_near".to_string()), signer());
    let first = contract.donate_to_funding(6, "bob_near".to_string(), 600).unwrap();
    assert!(first.is_none());
    let second = contract.donate_to_funding(4, "bob_near".to_string(), 400).unwrap();
    let transfer: Transfer = second.expect("the goal is met");
    assert_eq!(transfer.destination, "bob_near");
    assert_eq!(transfer.amount, 400);
    assert_eq!(partial_of(&contract, "bob_near"), 10);
}

#[test]
fn donate_to_missing_key_fails() {
    let mut contract = Contract::default();
    contract.create_funding(10, Some("bob_near".to_string()), signer());
    let r = contract.donate_to_funding(5, "carol_near".to_string(), 5);
    assert_eq!(r.unwrap_err(), FundingError::RecordNotFound);
    assert!(!contract.funding_memo.contains(&"carol_near".to_string()));
    assert_eq!(partial_of(&contract, "bob_near"), 0);
}

#[test]
fn query_missing_key_fails() {
    let contract = Contract::default();
    let r = contract.get_funding("carol_near".to_string());
    assert_eq!(r.unwrap_err(), FundingError::RecordNotFound);
}

#[test]
fn overshoot_does_not_release() {
    let mut contract = Contract::default();
    contract.create_funding(10, Some("bob_near".to_string()), signer());
    let r = contract.donate_to_funding(15, "bob_near".to_string(), 15).unwrap();
    assert!(r.is_none());
    assert_eq!(partial_of(&contract, "bob_near"), 15);
}

#[test]
fn redonation_after_match_can_release_again() {
    let mut contract = Contract::default();
    contract.create_funding(10, Some("bob_near".to_string()), signer());
    assert!(contract.donate_to_funding(10, "bob_near".to_string(), 1).unwrap().is_some());
    assert!(contract.donate_to_funding(5, "bob_near".to_string(), 2).unwrap().is_none());
    assert_eq!(partial_of(&contract, "bob_near"), 15);
    let again = contract.donate_to_funding(-5, "bob_near".to_string(), 3).unwrap();
    assert_eq!(again.unwrap().amount, 3);
    assert_eq!(partial_of(&contract, "bob_near"), 10);
}

#[test]
fn donation_past_i8_range_is_refused() {
    let mut contract = Contract::default();
    contract.create_funding(10, Some("bob_near".to_string()), signer());
    assert!(contract.donate_to_funding(100, "bob_near".to_string(), 0).is_ok());
    let r = contract.donate_to_funding(100, "bob_near".to_string(), 0);
    assert_eq!(r.unwrap_err(), FundingError::AmountOverflow);
    assert_eq!(partial_of(&contract, "bob_near"), 100);
    let r = contract.donate_to_funding(-128, "bob_near".to_string(), 0);
    assert!(r.is_ok());
    assert_eq!(partial_of(&contract, "bob_near"), -28);
}

#[test]
fn inc_funding_value_checks_range() {
    let mut record = Funding::new(10, "bob_near".to_string());
    assert_eq!(record.inc_funding_value(127), Ok(()));
    assert_eq!(record.partial_funding_value, 127);
    assert_eq!(record.inc_funding_value(1), Err(FundingError::AmountOverflow));
    assert_eq!(record.partial_funding_value, 127);
    assert_eq!(record.funding_value, 10);
}

#[test]
fn ledger_insert_replaces_and_keeps_others() {
    let mut ledger = Ledger::new();
    assert!(ledger.get(&"a".to_string()).is_none());
    ledger.insert(&"a".to_string(), &Funding::new(1, "a".to_string()));
    ledger.insert(&"b".to_string(), &Funding::new(2, "b".to_string()));
    ledger.insert(&"a".to_string(), &Funding::new(3, "x".to_string()));
    let a = ledger.get(&"a".to_string()).unwrap();
    assert_eq!(a.funding_value, 3);
    assert_eq!(a.funding_account_id, "x");
    assert_eq!(ledger.get(&"b".to_string()).unwrap().funding_value, 2);
    assert!(ledger.contains(&"b".to_string()));
    assert!(!ledger.contains(&"c".to_string()));
}

#[test]
fn duplicate_copies_every_field() {
    let mut record = Funding::new(9, "dave_near".to_string());
    record.inc_funding_value(4).unwrap();
    let copy = record.duplicate();
    assert_eq!(copy.funding_value, 9);
    assert_eq!(copy.funding_account_id, "dave_near");
    assert_eq!(copy.partial_funding_value, 4);
}
