use vstd::prelude::*;

use crate::freeze_contract::{freeze_effect, thaw_effect};
use crate::treasury::{
    collect_fee_effect, mint_effect, ownership_effect, parcel_wf, register_effect, verify_effect,
    ParcelView, TreasuryView,
};

verus! {

/// Every state change the treasury record can undergo in this core: an
/// operation that leaves it alone, a successful registration, or a fee
/// collection during token issuance.
pub open spec fn treasury_step(pre: TreasuryView, post: TreasuryView) -> bool {
    ||| post == pre
    ||| register_effect(pre, post)
    ||| exists|fee: u64| collect_fee_effect(pre, post, fee)
}

/// Law: the parcel count never decreases under any treasury operation, and
/// a successful registration increases it by exactly one.
pub proof fn lemma_parcel_count_monotonic(pre: TreasuryView, post: TreasuryView)
    requires
        treasury_step(pre, post),
    ensures
        post.land_parcel_count >= pre.land_parcel_count,
        register_effect(pre, post) ==> post.land_parcel_count == pre.land_parcel_count + 1,
{
}

/// Law: the fee accumulator never decreases under any treasury operation.
pub proof fn lemma_fees_monotonic(pre: TreasuryView, post: TreasuryView)
    requires
        treasury_step(pre, post),
    ensures
        post.total_fees_collected >= pre.total_fees_collected,
{
}

/// Every state change a parcel record can undergo in this core: an
/// operation that leaves it alone, a verification, a token issuance, an
/// ownership transfer, a freeze, or a thaw.
pub open spec fn parcel_step(pre: ParcelView, post: ParcelView) -> bool {
    ||| post == pre
    ||| verify_effect(pre, post)
    ||| mint_effect(pre, post)
    ||| exists|new_owner: Seq<u8>| ownership_effect(pre, post, new_owner)
    ||| exists|window: (i64, i64)| freeze_effect(pre, post, window.0, window.1)
    ||| thaw_effect(pre, post)
}

/// Law: the lifecycle flags are one-way. Once `is_verified` or
/// `nft_minted` holds of a parcel, no operation in this core clears it.
pub proof fn lemma_flags_one_way(pre: ParcelView, post: ParcelView)
    requires
        parcel_step(pre, post),
    ensures
        pre.is_verified ==> post.is_verified,
        pre.nft_minted ==> post.nft_minted,
{
}

/// Law: every operation in this core preserves parcel well-formedness — in
/// particular, a minted token stays on a verified parcel, and the freeze
/// fields stay populated together and only on a minted parcel.
pub proof fn lemma_parcel_step_preserves_wf(pre: ParcelView, post: ParcelView)
    requires
        parcel_step(pre, post),
        parcel_wf(pre),
    ensures
        parcel_wf(post),
{
}

} // verus!
