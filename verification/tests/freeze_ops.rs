use ulpin_registry::account::AccountId;
use ulpin_registry::freeze_contract::{
    freeze_land_nft, initialize_freeze_authority, thaw_land_nft, ErrorCode,
};
use ulpin_registry::treasury::{
    initialize_treasury, mint_land_nft, register_land_parcel, verify_land_parcel, LandParcel,
    Treasury,
};

fn key(b: u8) -> AccountId {
    AccountId { bytes: vec![b; 32] }
}

fn minted_parcel() -> (Treasury, LandParcel) {
    let mut t = initialize_treasury(key(1), 255);
    let (_, mut parcel, _) = register_land_parcel(
        &mut t,
        b"PLOT-1".to_vec(),
        500,
        b"d".to_vec(),
        b"t".to_vec(),
        b"v".to_vec(),
        key(2),
        1_000,
    )
    .unwrap();
    verify_land_parcel(&mut parcel, b"PLOT-1".to_vec(), key(3), 1_100).unwrap();
    mint_land_nft(
        &mut parcel,
        &mut t,
        b"PLOT-1".to_vec(),
        b"uri".to_vec(),
        key(5),
        key(6),
        key(7),
    )
    .unwrap();
    (t, parcel)
}

#[test]
fn initialize_freeze_authority_fields() {
    let f = initialize_freeze_authority(key(9), 254);
    assert_eq!(f.authority.bytes, vec![9u8; 32]);
    assert_eq!(f.freeze_authority_bump, 254);
}

#[test]
fn freeze_requires_minted_parcel() {
    let authority = initialize_freeze_authority(key(9), 254);
    let mut t = initialize_treasury(key(1), 255);
    let (_, mut parcel, _) = register_land_parcel(
        &mut t,
        b"PLOT-1".to_vec(),
        500,
        b"d".to_vec(),
        b"t".to_vec(),
        b"v".to_vec(),
        key(2),
        1_000,
    )
    .unwrap();
    let r = freeze_land_nft(&mut parcel, &authority, key(6), key(5), 3_600, 2_000);
    assert_eq!(r.err(), Some(ErrorCode::LandNotVerified));
    verify_land_parcel(&mut parcel, b"PLOT-1".to_vec(), key(3), 1_100).unwrap();
    let r = freeze_land_nft(&mut parcel, &authority, key(6), key(5), 3_600, 2_000);
    assert_eq!(r.err(), Some(ErrorCode::NFTNotMinted));
    assert_eq!(parcel.freeze_start_timestamp, None);
}

#[test]
fn freeze_records_window_and_directive() {
    let authority = initialize_freeze_authority(key(9), 254);
    let (_, mut parcel) = minted_parcel();
    let (directive, ev) = freeze_land_nft(&mut parcel, &authority, key(6), key(5), 3_600, 2_000)
        .expect("freeze should succeed on a minted parcel");
    assert_eq!(parcel.freeze_start_timestamp, Some(2_000));
    assert_eq!(parcel.freeze_duration, Some(3_600));
    assert!(directive.freeze);
    assert_eq!(directive.token_account.bytes, vec![6u8; 32]);
    assert_eq!(directive.nft_mint.bytes, vec![5u8; 32]);
    assert_eq!(directive.authority_bump, 254);
    assert_eq!(ev.freeze_duration, 3_600);
}

#[test]
fn freeze_notification_trims_identifier_padding() {
    let authority = initialize_freeze_authority(key(9), 254);
    let (_, mut parcel) = minted_parcel();
    let (_, ev) = freeze_land_nft(&mut parcel, &authority, key(6), key(5), 3_600, 2_000).unwrap();
    assert_eq!(ev.ulpin_id, b"PLOT-1".to_vec());
}

#[test]
fn thaw_at_window_boundary_fails_then_succeeds() {
    let authority = initialize_freeze_authority(key(9), 254);
    let (_, mut parcel) = minted_parcel();
    freeze_land_nft(&mut parcel, &authority, key(6), key(5), 3_600, 1_000).unwrap();
    let at_boundary = thaw_land_nft(&mut parcel, &authority, key(6), key(5), 4_600);
    assert_eq!(at_boundary.err(), Some(ErrorCode::FreezePeriodNotExpired));
    assert_eq!(parcel.freeze_start_timestamp, Some(1_000));
    let (directive, _) = thaw_land_nft(&mut parcel, &authority, key(6), key(5), 4_601)
        .expect("thaw one past the boundary should succeed");
    assert!(!directive.freeze);
    assert_eq!(parcel.freeze_start_timestamp, None);
    assert_eq!(parcel.freeze_duration, None);
}

#[test]
fn thaw_requires_minted_parcel() {
    let authority = initialize_freeze_authority(key(9), 254);
    let mut t = initialize_treasury(key(1), 255);
    let (_, mut parcel, _) = register_land_parcel(
        &mut t,
        b"PLOT-1".to_vec(),
        500,
        b"d".to_vec(),
        b"t".to_vec(),
        b"v".to_vec(),
        key(2),
        1_000,
    )
    .unwrap();
    let r = thaw_land_nft(&mut parcel, &authority, key(6), key(5), 9_999);
    assert_eq!(r.err(), Some(ErrorCode::LandNotVerified));
}

#[test]
fn thaw_with_no_active_freeze_defaults_to_zero_window() {
    let authority = initialize_freeze_authority(key(9), 254);
    let (_, mut parcel) = minted_parcel();
    let r = thaw_land_nft(&mut parcel, &authority, key(6), key(5), 1);
    assert!(r.is_ok());
    let (_, mut parcel) = minted_parcel();
    let r = thaw_land_nft(&mut parcel, &authority, key(6), key(5), 0);
    assert_eq!(r.err(), Some(ErrorCode::FreezePeriodNotExpired));
}

#[test]
fn thaw_notification_trims_identifier_padding() {
    let authority = initialize_freeze_authority(key(9), 254);
    let (_, mut parcel) = minted_parcel();
    freeze_land_nft(&mut parcel, &authority, key(6), key(5), 10, 1_000).unwrap();
    let (_, ev) = thaw_land_nft(&mut parcel, &authority, key(6), key(5), 2_000).unwrap();
    assert_eq!(ev.ulpin_id, b"PLOT-1".to_vec());
}
