use vstd::prelude::*;

use crate::account::AccountId;
use crate::bytes::{trim_zero_bytes, trim_zeros};
use crate::treasury::{parcel_wf, LandParcel, ParcelView};

verus! {

/// Failure conditions of the freeze and thaw operations. Every failure
/// leaves the parcel record exactly as it was.
#[derive(Clone, Copy, PartialEq, Eq, Structural, Debug)]
pub enum ErrorCode {
    LandNotVerified,
    NFTNotMinted,
    FreezePeriodNotExpired,
}

/// Singleton freeze-authority record: the authority identity and the
/// derivation nonce with which the authority re-derives its own signing
/// capability for delegated custody operations.
#[derive(Clone)]
pub struct FreezeAuthorityPDA {
    pub authority: AccountId,
    pub freeze_authority_bump: u8,
}

/// Mathematical value of a `FreezeAuthorityPDA` record.
pub ghost struct FreezeAuthorityView {
    pub authority: Seq<u8>,
    pub freeze_authority_bump: u8,
}

impl View for FreezeAuthorityPDA {
    type V = FreezeAuthorityView;

    open spec fn view(&self) -> FreezeAuthorityView {
        FreezeAuthorityView {
            authority: self.authority@,
            freeze_authority_bump: self.freeze_authority_bump,
        }
    }
}

/// Delegated custody instruction the hosting environment must perform
/// atomically with the commit of the operation that issued it: mark the
/// token held in `token_account` non-transferable (`freeze` true) or
/// transferable again (`freeze` false), signed with the freeze authority's
/// own derived capability (`authority_bump`), never the owner's key.
pub struct CustodyDirective {
    pub freeze: bool,
    pub token_account: AccountId,
    pub nft_mint: AccountId,
    pub authority_bump: u8,
}

/// Notification of a token made non-transferable.
pub struct NFTFrozen {
    pub ulpin_id: Vec<u8>,
    pub nft_mint: AccountId,
    pub freeze_duration: i64,
}

/// Notification of a token made transferable again.
pub struct NFTThawed {
    pub ulpin_id: Vec<u8>,
    pub nft_mint: AccountId,
}

/// What a successful freeze does to a parcel: only the freeze window is
/// recorded, on a parcel whose token is minted.
pub open spec fn freeze_effect(pre: ParcelView, post: ParcelView, start: i64, duration: i64) -> bool {
    &&& pre.is_verified
    &&& pre.nft_minted
    &&& post == (ParcelView {
        freeze_start_timestamp: Some(start),
        freeze_duration: Some(duration),
        ..pre
    })
}

/// What a successful thaw does to a parcel: only the freeze window is
/// cleared, on a parcel whose token is minted.
pub open spec fn thaw_effect(pre: ParcelView, post: ParcelView) -> bool {
    &&& pre.is_verified
    &&& pre.nft_minted
    &&& post == (ParcelView { freeze_start_timestamp: None, freeze_duration: None, ..pre })
}

/// The recorded freeze start, or zero when no freeze is active.
pub open spec fn freeze_start_or_zero(p: ParcelView) -> i64 {
    match p.freeze_start_timestamp {
        Some(t) => t,
        None => 0,
    }
}

/// The recorded freeze duration, or zero when no freeze is active.
pub open spec fn freeze_duration_or_zero(p: ParcelView) -> i64 {
    match p.freeze_duration {
        Some(d) => d,
        None => 0,
    }
}

/// Whether the freeze window has expired at time `now`: strictly after
/// start plus duration, so the boundary instant itself is still locked.
/// With no freeze recorded, both terms default to zero, which permits a
/// thaw at any positive time.
pub open spec fn freeze_expired(p: ParcelView, now: i64) -> bool {
    now > freeze_start_or_zero(p) + freeze_duration_or_zero(p)
}

/// Creates the singleton freeze-authority record: the caller becomes its
/// authority, with the given derivation nonce. The hosting environment
/// stores it at the address derived for `Domain::FreezeAuthority` and
/// rejects re-creation there, so this runs once per deployment.
pub fn initialize_freeze_authority(authority: AccountId, freeze_authority_bump: u8) -> (f:
    FreezeAuthorityPDA)
    ensures
        f@ == (FreezeAuthorityView { authority: authority@, freeze_authority_bump }),
{
    FreezeAuthorityPDA { authority, freeze_authority_bump }
}

/// Locks a minted token for `duration_seconds` starting at `now`. Rejects
/// an unverified parcel and one whose token is not minted, touching
/// nothing; otherwise records the freeze window on the parcel and returns
/// the delegated custody instruction that marks the token non-transferable,
/// with a notification carrying the null-trimmed parcel identifier.
pub fn freeze_land_nft(
    parcel: &mut LandParcel,
    freeze_authority: &FreezeAuthorityPDA,
    user_token_account: AccountId,
    nft_mint: AccountId,
    duration_seconds: i64,
    now: i64,
) -> (r: Result<(CustodyDirective, NFTFrozen), ErrorCode>)
    requires
        parcel_wf(old(parcel)@),
    ensures
        r is Ok <==> old(parcel)@.is_verified && old(parcel)@.nft_minted,
        r matches Err(e) ==> {
            &&& *final(parcel) == *old(parcel)
            &&& e == (if !old(parcel)@.is_verified {
                ErrorCode::LandNotVerified
            } else {
                ErrorCode::NFTNotMinted
            })
        },
        r matches Ok(out) ==> {
            &&& freeze_effect(old(parcel)@, final(parcel)@, now, duration_seconds)
            &&& out.0.freeze
            &&& out.0.token_account@ == user_token_account@
            &&& out.0.nft_mint@ == nft_mint@
            &&& out.0.authority_bump == freeze_authority.freeze_authority_bump
            &&& out.1.ulpin_id@ == trim_zeros(old(parcel)@.ulpin_id)
            &&& out.1.nft_mint@ == nft_mint@
            &&& out.1.freeze_duration == duration_seconds
        },
        parcel_wf(final(parcel)@),
{
    if !parcel.is_verified {
        return Err(ErrorCode::LandNotVerified);
    }
    if !parcel.nft_minted {
        return Err(ErrorCode::NFTNotMinted);
    }
    parcel.freeze_start_timestamp = Some(now);
    parcel.freeze_duration = Some(duration_seconds);
    let directive = CustodyDirective {
        freeze: true,
        token_account: user_token_account,
        nft_mint: nft_mint.dup(),
        authority_bump: freeze_authority.freeze_authority_bump,
    };
    let event = NFTFrozen {
        ulpin_id: trim_zero_bytes(&parcel.ulpin_id),
        nft_mint,
        freeze_duration: duration_seconds,
    };
    Ok((directive, event))
}

/// Unlocks a frozen token once its freeze window has expired. Rejects an
/// unverified parcel, one whose token is not minted, and a thaw at or
/// before the instant the window ends, touching nothing; otherwise clears
/// both freeze fields and returns the delegated custody instruction that
/// makes the token transferable again. With no freeze recorded, the window
/// defaults to start and duration zero, so a thaw at any positive time
/// goes through.
pub fn thaw_land_nft(
    parcel: &mut LandParcel,
    freeze_authority: &FreezeAuthorityPDA,
    user_token_account: AccountId,
    nft_mint: AccountId,
    now: i64,
) -> (r: Result<(CustodyDirective, NFTThawed), ErrorCode>)
    requires
        parcel_wf(old(parcel)@),
    ensures
        r is Ok <==> old(parcel)@.is_verified && old(parcel)@.nft_minted && freeze_expired(
            old(parcel)@,
            now,
        ),
        r matches Err(e) ==> {
            &&& *final(parcel) == *old(parcel)
            &&& e == (if !old(parcel)@.is_verified {
                ErrorCode::LandNotVerified
            } else if !old(parcel)@.nft_minted {
                ErrorCode::NFTNotMinted
            } else {
                ErrorCode::FreezePeriodNotExpired
            })
        },
        r matches Ok(out) ==> {
            &&& thaw_effect(old(parcel)@, final(parcel)@)
            &&& !out.0.freeze
            &&& out.0.token_account@ == user_token_account@
            &&& out.0.nft_mint@ == nft_mint@
            &&& out.0.authority_bump == freeze_authority.freeze_authority_bump
            &&& out.1.ulpin_id@ == trim_zeros(old(parcel)@.ulpin_id)
            &&& out.1.nft_mint@ == nft_mint@
        },
        parcel_wf(final(parcel)@),
{
    if !parcel.is_verified {
        return Err(ErrorCode::LandNotVerified);
    }
    if !parcel.nft_minted {
        return Err(ErrorCode::NFTNotMinted);
    }
    let start: i64 = match parcel.freeze_start_timestamp {
        Some(t) => t,
        None => 0,
    };
    let duration: i64 = match parcel.freeze_duration {
        Some(d) => d,
        None => 0,
    };
    let deadline: i128 = (start as i128) + (duration as i128);
    if (now as i128) <= deadline {
        return Err(ErrorCode::FreezePeriodNotExpired);
    }
    parcel.freeze_start_timestamp = None;
    parcel.freeze_duration = None;
    let directive = CustodyDirective {
        freeze: false,
        token_account: user_token_account,
        nft_mint: nft_mint.dup(),
        authority_bump: freeze_authority.freeze_authority_bump,
    };
    let event = NFTThawed { ulpin_id: trim_zero_bytes(&parcel.ulpin_id), nft_mint };
    Ok((directive, event))
}

} // verus!
