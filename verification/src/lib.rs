//! Verified core of an on-ledger land-asset registry: parcel registration,
//! verification and token issuance with fee collection, a time-bounded
//! freeze/thaw lock on issued tokens, and a two-phase cross-chain transfer
//! ledger. Every operation is a total function from the records it touches
//! (plus the externally read clock) to the new records, the emitted
//! notification, and any custody or payment directive the hosting
//! environment must carry out atomically with the commit.

pub mod account;
pub mod addressing;
pub mod bridge;
pub mod bytes;
pub mod freeze_contract;
pub mod laws;
pub mod treasury;
