use vstd::prelude::*;

use crate::account::{AccountId, ACCOUNT_ID_LEN};
use crate::addressing::{derive_address, derive_spec, Address, Domain};
use crate::bytes::{copy_bytes, pad_to, zero_padded};

verus! {

/// Capacity in bytes of a parcel identifier, zero-padded in storage.
pub const ULPIN_ID_LEN: usize = 64;

/// Capacity in bytes of each location label, zero-padded in storage.
pub const LABEL_LEN: usize = 32;

/// Longest accepted metadata locator, in bytes.
pub const MAX_METADATA_URI_LEN: usize = 200;

/// Flat fee charged for every token issuance, in base units.
pub const BASE_MINT_FEE: u64 = 100_000;

/// Issuance fee charged per square meter of parcel area, in base units.
pub const FEE_PER_SQM: u64 = 10;

/// Failure conditions of the treasury operations. Every failure leaves all
/// records exactly as they were.
#[derive(Clone, Copy, PartialEq, Eq, Structural, Debug)]
pub enum ErrorCode {
    InvalidULPINLength,
    InvalidArea,
    InvalidMetadataURI,
    NFTAlreadyMinted,
    LandNotVerified,
    AlreadyVerified,
    NFTNotMinted,
}

/// Singleton treasury record: one per deployment, created by
/// `initialize_treasury` at the address derived for `Domain::Treasury`.
#[derive(Clone)]
pub struct Treasury {
    pub authority: AccountId,
    pub treasury_bump: u8,
    pub total_fees_collected: u64,
    pub land_parcel_count: u64,
    pub is_active: bool,
}

/// Mathematical value of a `Treasury` record.
pub ghost struct TreasuryView {
    pub authority: Seq<u8>,
    pub treasury_bump: u8,
    pub total_fees_collected: u64,
    pub land_parcel_count: u64,
    pub is_active: bool,
}

impl View for Treasury {
    type V = TreasuryView;

    open spec fn view(&self) -> TreasuryView {
        TreasuryView {
            authority: self.authority@,
            treasury_bump: self.treasury_bump,
            total_fees_collected: self.total_fees_collected,
            land_parcel_count: self.land_parcel_count,
            is_active: self.is_active,
        }
    }
}

/// One registered land parcel. Created by `register_land_parcel` at the
/// address derived from the parcel identifier, and never deleted.
#[derive(Clone)]
pub struct LandParcel {
    pub ulpin_id: Vec<u8>,
    pub area_sqm: u64,
    pub district: Vec<u8>,
    pub taluka: Vec<u8>,
    pub village: Vec<u8>,
    pub owner: AccountId,
    pub registration_timestamp: i64,
    pub is_verified: bool,
    pub nft_minted: bool,
    pub freeze_start_timestamp: Option<i64>,
    pub freeze_duration: Option<i64>,
}

/// Mathematical value of a `LandParcel` record.
pub ghost struct ParcelView {
    pub ulpin_id: Seq<u8>,
    pub area_sqm: u64,
    pub district: Seq<u8>,
    pub taluka: Seq<u8>,
    pub village: Seq<u8>,
    pub owner: Seq<u8>,
    pub registration_timestamp: i64,
    pub is_verified: bool,
    pub nft_minted: bool,
    pub freeze_start_timestamp: Option<i64>,
    pub freeze_duration: Option<i64>,
}

impl View for LandParcel {
    type V = ParcelView;

    open spec fn view(&self) -> ParcelView {
        ParcelView {
            ulpin_id: self.ulpin_id@,
            area_sqm: self.area_sqm,
            district: self.district@,
            taluka: self.taluka@,
            village: self.village@,
            owner: self.owner@,
            registration_timestamp: self.registration_timestamp,
            is_verified: self.is_verified,
            nft_minted: self.nft_minted,
            freeze_start_timestamp: self.freeze_start_timestamp,
            freeze_duration: self.freeze_duration,
        }
    }
}

/// Well-formedness of a parcel record: fixed field widths, a positive area,
/// a minted token only on a verified parcel, and freeze fields that are
/// populated together and only once the token is minted.
pub open spec fn parcel_wf(p: ParcelView) -> bool {
    &&& p.ulpin_id.len() == ULPIN_ID_LEN
    &&& p.district.len() == LABEL_LEN
    &&& p.taluka.len() == LABEL_LEN
    &&& p.village.len() == LABEL_LEN
    &&& p.owner.len() == ACCOUNT_ID_LEN
    &&& p.area_sqm > 0
    &&& (p.nft_minted ==> p.is_verified)
    &&& (p.freeze_start_timestamp is Some <==> p.freeze_duration is Some)
    &&& (p.freeze_start_timestamp is Some ==> p.is_verified && p.nft_minted)
}

/// Addition on u64 that clamps at the largest value instead of wrapping.
pub open spec fn sat_add_u64(a: u64, b: u64) -> u64 {
    if a + b > u64::MAX {
        u64::MAX
    } else {
        (a + b) as u64
    }
}

/// The issuance fee for a parcel of the given area: the flat fee plus the
/// per-square-meter fee, clamped at the largest representable amount.
pub open spec fn mint_fee(area_sqm: u64) -> u64 {
    if BASE_MINT_FEE + area_sqm * FEE_PER_SQM > u64::MAX {
        u64::MAX
    } else {
        (BASE_MINT_FEE + area_sqm * FEE_PER_SQM) as u64
    }
}

/// What a successful registration does to the treasury record: the parcel
/// count grows by exactly one and nothing else moves.
pub open spec fn register_effect(pre: TreasuryView, post: TreasuryView) -> bool {
    &&& pre.land_parcel_count < u64::MAX
    &&& post == (TreasuryView { land_parcel_count: (pre.land_parcel_count + 1) as u64, ..pre })
}

/// What collecting an issuance fee does to the treasury record: the fee
/// accumulator grows by the fee, clamped, and nothing else moves.
pub open spec fn collect_fee_effect(pre: TreasuryView, post: TreasuryView, fee: u64) -> bool {
    post == (TreasuryView {
        total_fees_collected: sat_add_u64(pre.total_fees_collected, fee),
        ..pre
    })
}

/// What a successful verification does to a parcel: only the one-way
/// `is_verified` flag flips, from false to true.
pub open spec fn verify_effect(pre: ParcelView, post: ParcelView) -> bool {
    &&& !pre.is_verified
    &&& post == (ParcelView { is_verified: true, ..pre })
}

/// What a successful issuance does to a parcel: only the one-way
/// `nft_minted` flag flips, on an already verified parcel.
pub open spec fn mint_effect(pre: ParcelView, post: ParcelView) -> bool {
    &&& pre.is_verified
    &&& !pre.nft_minted
    &&& post == (ParcelView { nft_minted: true, ..pre })
}

/// What a successful ownership transfer does to a parcel: only the owner
/// changes, and only once the token is minted.
pub open spec fn ownership_effect(pre: ParcelView, post: ParcelView, new_owner: Seq<u8>) -> bool {
    &&& pre.is_verified
    &&& pre.nft_minted
    &&& new_owner.len() == ACCOUNT_ID_LEN
    &&& post == (ParcelView { owner: new_owner, ..pre })
}

/// Notification of a completed registration.
pub struct LandParcelRegistered {
    pub ulpin_id: Vec<u8>,
    pub owner: AccountId,
    pub area_sqm: u64,
    pub registration_timestamp: i64,
}

/// Notification of a completed token issuance.
pub struct NFTMinted {
    pub ulpin_id: Vec<u8>,
    pub owner: AccountId,
    pub nft_mint: AccountId,
    pub metadata_uri: Vec<u8>,
    pub fee_paid: u64,
}

/// Notification of a completed verification.
pub struct LandParcelVerified {
    pub ulpin_id: Vec<u8>,
    pub verifier: AccountId,
    pub verification_timestamp: i64,
}

/// Notification of a completed ownership transfer. `previous_owner` is the
/// owner of record before the transfer.
pub struct OwnershipTransferred {
    pub ulpin_id: Vec<u8>,
    pub previous_owner: AccountId,
    pub new_owner: AccountId,
    pub transfer_timestamp: i64,
}

/// Value movement the hosting environment must perform atomically with the
/// commit of the operation that issued it: exactly `amount` from `from` to
/// `to`. If the movement fails, the whole operation is rolled back.
pub struct FeeTransfer {
    pub from: AccountId,
    pub to: AccountId,
    pub amount: u64,
}

/// Creates the singleton treasury record: the caller becomes its authority,
/// both counters start at zero, and the registry is active. The hosting
/// environment stores it at the address derived for `Domain::Treasury` and
/// rejects re-creation at that address, so this runs once per deployment.
pub fn initialize_treasury(authority: AccountId, treasury_bump: u8) -> (t: Treasury)
    ensures
        t@ == (TreasuryView {
            authority: authority@,
            treasury_bump,
            total_fees_collected: 0,
            land_parcel_count: 0,
            is_active: true,
        }),
{
    Treasury {
        authority,
        treasury_bump,
        total_fees_collected: 0,
        land_parcel_count: 0,
        is_active: true,
    }
}

/// Registers a land parcel. Rejects an identifier over 64 bytes and a zero
/// area, leaving the treasury untouched; otherwise returns the new record
/// with all lifecycle flags clear, its derived storage address, and the
/// registration notification, and counts the parcel in the treasury.
pub fn register_land_parcel(
    treasury: &mut Treasury,
    ulpin_id: Vec<u8>,
    area_sqm: u64,
    district: Vec<u8>,
    taluka: Vec<u8>,
    village: Vec<u8>,
    owner_pubkey: AccountId,
    now: i64,
) -> (r: Result<(Address, LandParcel, LandParcelRegistered), ErrorCode>)
    requires
        ulpin_id@.len() <= ULPIN_ID_LEN && area_sqm > 0 ==> {
            &&& district@.len() <= LABEL_LEN
            &&& taluka@.len() <= LABEL_LEN
            &&& village@.len() <= LABEL_LEN
            &&& owner_pubkey.wf()
            &&& old(treasury).land_parcel_count < u64::MAX
        },
    ensures
        r is Ok <==> ulpin_id@.len() <= ULPIN_ID_LEN && area_sqm > 0,
        r matches Err(e) ==> {
            &&& *final(treasury) == *old(treasury)
            &&& e == (if ulpin_id@.len() > ULPIN_ID_LEN {
                ErrorCode::InvalidULPINLength
            } else {
                ErrorCode::InvalidArea
            })
        },
        r matches Ok(out) ==> {
            &&& register_effect(old(treasury)@, final(treasury)@)
            &&& out.0@ == derive_spec(
                Domain::LandParcel,
                zero_padded(ulpin_id@, ULPIN_ID_LEN as nat),
            )
            &&& out.1@ == (ParcelView {
                ulpin_id: zero_padded(ulpin_id@, ULPIN_ID_LEN as nat),
                area_sqm,
                district: zero_padded(district@, LABEL_LEN as nat),
                taluka: zero_padded(taluka@, LABEL_LEN as nat),
                village: zero_padded(village@, LABEL_LEN as nat),
                owner: owner_pubkey@,
                registration_timestamp: now,
                is_verified: false,
                nft_minted: false,
                freeze_start_timestamp: None,
                freeze_duration: None,
            })
            &&& parcel_wf(out.1@)
            &&& out.2.ulpin_id@ == ulpin_id@
            &&& out.2.owner@ == owner_pubkey@
            &&& out.2.area_sqm == area_sqm
            &&& out.2.registration_timestamp == now
        },
{
    if ulpin_id.len() > ULPIN_ID_LEN {
        return Err(ErrorCode::InvalidULPINLength);
    }
    if area_sqm == 0 {
        return Err(ErrorCode::InvalidArea);
    }
    let padded_id = pad_to(&ulpin_id, ULPIN_ID_LEN);
    let address = derive_address(Domain::LandParcel, copy_bytes(&padded_id));
    let event = LandParcelRegistered {
        ulpin_id,
        owner: owner_pubkey.dup(),
        area_sqm,
        registration_timestamp: now,
    };
    let parcel = LandParcel {
        ulpin_id: padded_id,
        area_sqm,
        district: pad_to(&district, LABEL_LEN),
        taluka: pad_to(&taluka, LABEL_LEN),
        village: pad_to(&village, LABEL_LEN),
        owner: owner_pubkey,
        registration_timestamp: now,
        is_verified: false,
        nft_minted: false,
        freeze_start_timestamp: None,
        freeze_duration: None,
    };
    treasury.land_parcel_count = treasury.land_parcel_count + 1;
    Ok((address, parcel, event))
}

/// Marks a parcel verified. Rejects a parcel that is already verified,
/// leaving it untouched; otherwise flips the one-way flag and reports the
/// verifier identity and the verification time.
pub fn verify_land_parcel(
    parcel: &mut LandParcel,
    ulpin_id: Vec<u8>,
    verifier: AccountId,
    now: i64,
) -> (r: Result<LandParcelVerified, ErrorCode>)
    requires
        parcel_wf(old(parcel)@),
    ensures
        r is Ok <==> !old(parcel)@.is_verified,
        r matches Err(e) ==> e == ErrorCode::AlreadyVerified && *final(parcel) == *old(parcel),
        r matches Ok(ev) ==> {
            &&& verify_effect(old(parcel)@, final(parcel)@)
            &&& ev.ulpin_id@ == ulpin_id@
            &&& ev.verifier@ == verifier@
            &&& ev.verification_timestamp == now
        },
        parcel_wf(final(parcel)@),
{
    if parcel.is_verified {
        return Err(ErrorCode::AlreadyVerified);
    }
    parcel.is_verified = true;
    Ok(LandParcelVerified { ulpin_id, verifier, verification_timestamp: now })
}

/// The issuance fee for a parcel of the given area, computed without
/// overflow: clamped at the largest representable amount.
pub fn compute_mint_fee(area_sqm: u64) -> (r: u64)
    ensures
        r == mint_fee(area_sqm),
{
    let per_unit: u128 = FEE_PER_SQM as u128;
    let total: u128 = (BASE_MINT_FEE as u128) + (area_sqm as u128) * per_unit;
    if total > (u64::MAX as u128) {
        u64::MAX
    } else {
        total as u64
    }
}

/// Issues the ownership token for a verified parcel. Rejects a metadata
/// locator over 200 bytes, a parcel whose token is already minted, and an
/// unverified parcel, touching nothing; otherwise computes the issuance fee
/// from the parcel area, adds it (clamped) to the fee accumulator, flips the
/// one-way `nft_minted` flag, and returns the fee movement the hosting
/// environment must perform atomically with the commit, together with the
/// issuance notification.
pub fn mint_land_nft(
    parcel: &mut LandParcel,
    treasury: &mut Treasury,
    ulpin_id: Vec<u8>,
    metadata_uri: Vec<u8>,
    nft_mint: AccountId,
    user_token_account: AccountId,
    treasury_token_account: AccountId,
) -> (r: Result<(FeeTransfer, NFTMinted), ErrorCode>)
    requires
        parcel_wf(old(parcel)@),
    ensures
        r is Ok <==> metadata_uri@.len() <= MAX_METADATA_URI_LEN && !old(parcel)@.nft_minted
            && old(parcel)@.is_verified,
        r matches Err(e) ==> {
            &&& *final(parcel) == *old(parcel)
            &&& *final(treasury) == *old(treasury)
            &&& e == (if metadata_uri@.len() > MAX_METADATA_URI_LEN {
                ErrorCode::InvalidMetadataURI
            } else if old(parcel)@.nft_minted {
                ErrorCode::NFTAlreadyMinted
            } else {
                ErrorCode::LandNotVerified
            })
        },
        r matches Ok(out) ==> {
            &&& mint_effect(old(parcel)@, final(parcel)@)
            &&& collect_fee_effect(
                old(treasury)@,
                final(treasury)@,
                mint_fee(old(parcel)@.area_sqm),
            )
            &&& out.0.from@ == user_token_account@
            &&& out.0.to@ == treasury_token_account@
            &&& out.0.amount == mint_fee(old(parcel)@.area_sqm)
            &&& out.1.ulpin_id@ == ulpin_id@
            &&& out.1.owner@ == old(parcel)@.owner
            &&& out.1.nft_mint@ == nft_mint@
            &&& out.1.metadata_uri@ == metadata_uri@
            &&& out.1.fee_paid == mint_fee(old(parcel)@.area_sqm)
        },
        parcel_wf(final(parcel)@),
{
    if metadata_uri.len() > MAX_METADATA_URI_LEN {
        return Err(ErrorCode::InvalidMetadataURI);
    }
    if parcel.nft_minted {
        return Err(ErrorCode::NFTAlreadyMinted);
    }
    if !parcel.is_verified {
        return Err(ErrorCode::LandNotVerified);
    }
    let fee = compute_mint_fee(parcel.area_sqm);
    let new_total: u128 = (treasury.total_fees_collected as u128) + (fee as u128);
    treasury.total_fees_collected = if new_total > (u64::MAX as u128) {
        u64::MAX
    } else {
        new_total as u64
    };
    parcel.nft_minted = true;
    let payment = FeeTransfer { from: user_token_account, to: treasury_token_account, amount: fee };
    let event = NFTMinted {
        ulpin_id,
        owner: parcel.owner.dup(),
        nft_mint,
        metadata_uri,
        fee_paid: fee,
    };
    Ok((payment, event))
}

/// Replaces the owner of record of a minted parcel. Rejects an unverified
/// parcel and one whose token is not minted, touching nothing; otherwise
/// records the new owner and reports the transfer with the owner of record
/// before the change.
pub fn update_land_ownership(
    parcel: &mut LandParcel,
    ulpin_id: Vec<u8>,
    new_owner: AccountId,
    now: i64,
) -> (r: Result<OwnershipTransferred, ErrorCode>)
    requires
        parcel_wf(old(parcel)@),
        new_owner.wf(),
    ensures
        r is Ok <==> old(parcel)@.is_verified && old(parcel)@.nft_minted,
        r matches Err(e) ==> {
            &&& *final(parcel) == *old(parcel)
            &&& e == (if !old(parcel)@.is_verified {
                ErrorCode::LandNotVerified
            } else {
                ErrorCode::NFTNotMinted
            })
        },
        r matches Ok(ev) ==> {
            &&& ownership_effect(old(parcel)@, final(parcel)@, new_owner@)
            &&& ev.ulpin_id@ == ulpin_id@
            &&& ev.previous_owner@ == old(parcel)@.owner
            &&& ev.new_owner@ == new_owner@
            &&& ev.transfer_timestamp == now
        },
        parcel_wf(final(parcel)@),
{
    if !parcel.is_verified {
        return Err(ErrorCode::LandNotVerified);
    }
    if !parcel.nft_minted {
        return Err(ErrorCode::NFTNotMinted);
    }
    let previous_owner = parcel.owner.dup();
    let recorded_owner = new_owner.dup();
    parcel.owner = recorded_owner;
    Ok(OwnershipTransferred {
        ulpin_id,
        previous_owner,
        new_owner,
        transfer_timestamp: now,
    })
}

} // verus!
