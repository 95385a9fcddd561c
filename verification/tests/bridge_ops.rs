use ulpin_registry::account::AccountId;
use ulpin_registry::addressing::Domain;
use ulpin_registry::bridge::{
    confirm_transfer, cross_chain_transfer, initialize_bridge, ErrorCode, TransferStatus,
};

fn key(b: u8) -> AccountId {
    AccountId { bytes: vec![b; 32] }
}

#[test]
fn initialize_bridge_fields() {
    let b = initialize_bridge(key(1), 253);
    assert_eq!(b.authority.bytes, vec![1u8; 32]);
    assert_eq!(b.bridge_bump, 253);
    assert_eq!(b.total_transfers, 0);
    assert!(b.is_active);
}

#[test]
fn transfer_rejects_zero_amount() {
    let mut b = initialize_bridge(key(1), 253);
    let r = cross_chain_transfer(&mut b, key(2), 0, 1_000);
    assert_eq!(r.err(), Some(ErrorCode::InvalidAmount));
    assert_eq!(b.total_transfers, 0);
}

#[test]
fn transfer_lifecycle_pending_then_completed() {
    let mut b = initialize_bridge(key(1), 253);
    let (_, mut record, _) =
        cross_chain_transfer(&mut b, key(2), 50, 1_000).expect("initiation should succeed");
    assert!(record.status == TransferStatus::Pending);
    assert_eq!(record.amount, 50);
    assert_eq!(record.timestamp, 1_000);
    assert_eq!(record.confirmation_timestamp, None);
    let ev = confirm_transfer(&mut record, 2_000).expect("confirmation should succeed");
    assert!(record.status == TransferStatus::Completed);
    assert_eq!(record.confirmation_timestamp, Some(2_000));
    assert_eq!(ev.completion_timestamp, 2_000);
    let again = confirm_transfer(&mut record, 3_000);
    assert_eq!(again.err(), Some(ErrorCode::TransferNotPending));
    assert_eq!(record.confirmation_timestamp, Some(2_000));
}

#[test]
fn transfer_counter_increments_per_initiation() {
    let mut b = initialize_bridge(key(1), 253);
    cross_chain_transfer(&mut b, key(2), 10, 1_000).unwrap();
    assert_eq!(b.total_transfers, 1);
    cross_chain_transfer(&mut b, key(3), 20, 1_001).unwrap();
    assert_eq!(b.total_transfers, 2);
}

#[test]
fn transfer_address_is_derived_from_sender() {
    let mut b = initialize_bridge(key(1), 253);
    let (address, record, ev) = cross_chain_transfer(&mut b, key(2), 50, 1_000).unwrap();
    assert!(address.matches_derivation(Domain::Transfer, &vec![2u8; 32]));
    assert!(!address.matches_derivation(Domain::LandParcel, &vec![2u8; 32]));
    assert!(!address.matches_derivation(Domain::Transfer, &vec![3u8; 32]));
    assert!(ev.transfer_id.matches_derivation(Domain::Transfer, &vec![2u8; 32]));
    assert_eq!(record.sender.bytes, vec![2u8; 32]);
    let mut record = record;
    let ev2 = confirm_transfer(&mut record, 2_000).unwrap();
    assert!(ev2.transfer_id.matches_derivation(Domain::Transfer, &vec![2u8; 32]));
}
