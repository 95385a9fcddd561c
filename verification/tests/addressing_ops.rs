use ulpin_registry::account::AccountId;
use ulpin_registry::addressing::{derive_address, Address, Domain, DERIVATION_BUMP};
use ulpin_registry::bytes::{pad_to, trim_zero_bytes};
use ulpin_registry::treasury::{initialize_treasury, register_land_parcel};

#[test]
fn derivation_is_reproducible() {
    let a: Address = derive_address(Domain::Treasury, Vec::new());
    let b: Address = derive_address(Domain::Treasury, Vec::new());
    assert!(a.matches_derivation(Domain::Treasury, &Vec::new()));
    assert!(b.matches_derivation(Domain::Treasury, &Vec::new()));
    assert_eq!(a.bump, DERIVATION_BUMP);
}

#[test]
fn differing_domains_never_collide() {
    let key = b"same-key-material".to_vec();
    let a = derive_address(Domain::Treasury, key.clone());
    assert!(!a.matches_derivation(Domain::Bridge, &key));
    assert!(!a.matches_derivation(Domain::FreezeAuthority, &key));
    assert!(!a.matches_derivation(Domain::LandParcel, &key));
    assert!(!a.matches_derivation(Domain::Transfer, &key));
    assert!(a.matches_derivation(Domain::Treasury, &key));
}

#[test]
fn differing_key_material_never_collides() {
    let a = derive_address(Domain::Transfer, b"alice".to_vec());
    assert!(!a.matches_derivation(Domain::Transfer, &b"bob".to_vec()));
}

#[test]
fn parcel_address_keys_on_full_padded_identifier() {
    let mut t = initialize_treasury(AccountId { bytes: vec![1u8; 32] }, 255);
    let (address, _, _) = register_land_parcel(
        &mut t,
        b"PLOT-1".to_vec(),
        500,
        b"d".to_vec(),
        b"t".to_vec(),
        b"v".to_vec(),
        AccountId { bytes: vec![2u8; 32] },
        1_000,
    )
    .unwrap();
    let mut expected_key = b"PLOT-1".to_vec();
    expected_key.resize(64, 0);
    assert!(address.matches_derivation(Domain::LandParcel, &expected_key));
}

#[test]
fn parcel_identifiers_sharing_a_long_prefix_get_distinct_addresses() {
    let mut t = initialize_treasury(AccountId { bytes: vec![1u8; 32] }, 255);
    let mut id_a = vec![b'x'; 33];
    let mut id_b = vec![b'x'; 34];
    id_a[32] = b'A';
    id_b[32] = b'A';
    id_b[33] = b'B';
    let owner = AccountId { bytes: vec![2u8; 32] };
    let (addr_a, _, _) = register_land_parcel(
        &mut t,
        id_a.clone(),
        500,
        b"d".to_vec(),
        b"t".to_vec(),
        b"v".to_vec(),
        owner.clone(),
        1_000,
    )
    .unwrap();
    let (addr_b, _, _) = register_land_parcel(
        &mut t,
        id_b.clone(),
        500,
        b"d".to_vec(),
        b"t".to_vec(),
        b"v".to_vec(),
        owner,
        1_000,
    )
    .unwrap();
    let mut key_a = id_a;
    key_a.resize(64, 0);
    let mut key_b = id_b;
    key_b.resize(64, 0);
    assert!(addr_a.matches_derivation(Domain::LandParcel, &key_a));
    assert!(addr_b.matches_derivation(Domain::LandParcel, &key_b));
    assert!(!addr_a.matches_derivation(Domain::LandParcel, &key_b));
    assert!(!addr_b.matches_derivation(Domain::LandParcel, &key_a));
}

#[test]
fn pad_to_appends_zero_bytes() {
    let padded = pad_to(&b"ab".to_vec(), 5);
    assert_eq!(padded, vec![b'a', b'b', 0, 0, 0]);
    let unchanged = pad_to(&b"abc".to_vec(), 3);
    assert_eq!(unchanged, b"abc".to_vec());
}

#[test]
fn trim_zero_bytes_strips_both_ends() {
    let trimmed = trim_zero_bytes(&vec![0, 0, b'a', 0, b'b', 0, 0]);
    assert_eq!(trimmed, vec![b'a', 0, b'b']);
    let empty = trim_zero_bytes(&vec![0, 0, 0]);
    assert_eq!(empty, Vec::<u8>::new());
}

#[test]
fn account_id_rejects_wrong_length() {
    assert!(AccountId::new(vec![1u8; 32]).is_some());
    assert!(AccountId::new(vec![1u8; 31]).is_none());
    assert!(AccountId::new(Vec::new()).is_none());
}
