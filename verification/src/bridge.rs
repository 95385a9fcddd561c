use vstd::prelude::*;

use crate::account::AccountId;
use crate::addressing::{derive_address, derive_spec, Address, Domain};
use crate::bytes::copy_bytes;

verus! {

/// Failure conditions of the bridge operations. Every failure leaves all
/// records exactly as they were.
#[derive(Clone, Copy, PartialEq, Eq, Structural, Debug)]
pub enum ErrorCode {
    InvalidAmount,
    TransferNotPending,
}

/// Phase of a cross-chain transfer record. `Failed` exists for an
/// out-of-scope abort path; no operation here ever sets it.
#[derive(Clone, Copy, PartialEq, Eq, Structural, Debug)]
pub enum TransferStatus {
    Pending,
    Completed,
    Failed,
}

/// Singleton bridge record: one per deployment, created by
/// `initialize_bridge` at the address derived for `Domain::Bridge`.
#[derive(Clone)]
pub struct Bridge {
    pub authority: AccountId,
    pub bridge_bump: u8,
    pub total_transfers: u64,
    pub is_active: bool,
}

/// Mathematical value of a `Bridge` record.
pub ghost struct BridgeView {
    pub authority: Seq<u8>,
    pub bridge_bump: u8,
    pub total_transfers: u64,
    pub is_active: bool,
}

impl View for Bridge {
    type V = BridgeView;

    open spec fn view(&self) -> BridgeView {
        BridgeView {
            authority: self.authority@,
            bridge_bump: self.bridge_bump,
            total_transfers: self.total_transfers,
            is_active: self.is_active,
        }
    }
}

/// One in-flight or completed cross-chain transfer. Its storage address is
/// derived from the sender identity alone, so a sender has at most one
/// record in flight at a time: the hosting environment rejects a second
/// creation at the same address.
#[derive(Clone)]
pub struct CrossChainTransferData {
    pub amount: u64,
    pub sender: AccountId,
    pub timestamp: i64,
    pub status: TransferStatus,
    pub confirmation_timestamp: Option<i64>,
}

/// Mathematical value of a `CrossChainTransferData` record.
pub ghost struct TransferView {
    pub amount: u64,
    pub sender: Seq<u8>,
    pub timestamp: i64,
    pub status: TransferStatus,
    pub confirmation_timestamp: Option<i64>,
}

impl View for CrossChainTransferData {
    type V = TransferView;

    open spec fn view(&self) -> TransferView {
        TransferView {
            amount: self.amount,
            sender: self.sender@,
            timestamp: self.timestamp,
            status: self.status,
            confirmation_timestamp: self.confirmation_timestamp,
        }
    }
}

/// Well-formedness of a transfer record: a positive amount, and a
/// confirmation time exactly when the transfer is completed.
pub open spec fn transfer_wf(t: TransferView) -> bool {
    &&& t.amount > 0
    &&& (t.confirmation_timestamp is Some <==> t.status == TransferStatus::Completed)
}

/// Notification of an initiated transfer; `transfer_id` is the record's
/// derived address and serves as the correlation id.
pub struct CrossChainTransferInitiated {
    pub amount: u64,
    pub sender: AccountId,
    pub transfer_id: Address,
}

/// Notification of a completed transfer.
pub struct CrossChainTransferCompleted {
    pub transfer_id: Address,
    pub completion_timestamp: i64,
}

/// Creates the singleton bridge record: the caller becomes its authority,
/// the transfer counter starts at zero, and the bridge is active. The
/// hosting environment stores it at the address derived for
/// `Domain::Bridge` and rejects re-creation there, so this runs once per
/// deployment.
pub fn initialize_bridge(authority: AccountId, bridge_bump: u8) -> (b: Bridge)
    ensures
        b@ == (BridgeView { authority: authority@, bridge_bump, total_transfers: 0, is_active: true }),
{
    Bridge { authority, bridge_bump, total_transfers: 0, is_active: true }
}

/// Initiates a cross-chain transfer of `amount` from `sender`. Rejects a
/// zero amount, leaving the bridge untouched; otherwise returns the new
/// pending record, its storage address derived from the sender identity,
/// and the initiation notification, and counts the transfer in the bridge.
pub fn cross_chain_transfer(bridge: &mut Bridge, sender: AccountId, amount: u64, now: i64) -> (r:
    Result<(Address, CrossChainTransferData, CrossChainTransferInitiated), ErrorCode>)
    requires
        sender.wf(),
        amount > 0 ==> old(bridge).total_transfers < u64::MAX,
    ensures
        r is Ok <==> amount > 0,
        r matches Err(e) ==> e == ErrorCode::InvalidAmount && *final(bridge) == *old(bridge),
        r matches Ok(out) ==> {
            &&& final(bridge)@ == (BridgeView {
                total_transfers: (old(bridge)@.total_transfers + 1) as u64,
                ..old(bridge)@
            })
            &&& out.0@ == derive_spec(Domain::Transfer, sender@)
            &&& out.1@ == (TransferView {
                amount,
                sender: sender@,
                timestamp: now,
                status: TransferStatus::Pending,
                confirmation_timestamp: None,
            })
            &&& transfer_wf(out.1@)
            &&& out.2.amount == amount
            &&& out.2.sender@ == sender@
            &&& out.2.transfer_id@ == out.0@
        },
{
    if amount == 0 {
        return Err(ErrorCode::InvalidAmount);
    }
    let address = derive_address(Domain::Transfer, copy_bytes(&sender.bytes));
    let record = CrossChainTransferData {
        amount,
        sender: sender.dup(),
        timestamp: now,
        status: TransferStatus::Pending,
        confirmation_timestamp: None,
    };
    let event = CrossChainTransferInitiated { amount, sender, transfer_id: address.dup() };
    bridge.total_transfers = bridge.total_transfers + 1;
    Ok((address, record, event))
}

/// Completes a pending transfer. Rejects a record not in the pending
/// phase, leaving it untouched; otherwise marks it completed, records the
/// confirmation time, and reports completion under the record's derived
/// address. Confirmation is authority-gated trust recorded here; the proof
/// system that would make it trustworthy end to end lives outside this
/// core.
pub fn confirm_transfer(transfer: &mut CrossChainTransferData, now: i64) -> (r: Result<
    CrossChainTransferCompleted,
    ErrorCode,
>)
    ensures
        r is Ok <==> old(transfer)@.status == TransferStatus::Pending,
        r matches Err(e) ==> e == ErrorCode::TransferNotPending && *final(transfer) == *old(
            transfer,
        ),
        r matches Ok(ev) ==> {
            &&& final(transfer)@ == (TransferView {
                status: TransferStatus::Completed,
                confirmation_timestamp: Some(now),
                ..old(transfer)@
            })
            &&& ev.transfer_id@ == derive_spec(Domain::Transfer, old(transfer)@.sender)
            &&& ev.completion_timestamp == now
        },
        transfer_wf(old(transfer)@) ==> transfer_wf(final(transfer)@),
{
    match transfer.status {
        TransferStatus::Pending => {},
        _ => {
            return Err(ErrorCode::TransferNotPending);
        },
    }
    transfer.status = TransferStatus::Completed;
    transfer.confirmation_timestamp = Some(now);
    let transfer_id = derive_address(Domain::Transfer, copy_bytes(&transfer.sender.bytes));
    Ok(CrossChainTransferCompleted { transfer_id, completion_timestamp: now })
}

} // verus!
