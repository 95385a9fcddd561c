use vstd::prelude::*;

use crate::bytes::copy_bytes;

verus! {

/// Width in bytes of an account identity key.
pub const ACCOUNT_ID_LEN: usize = 32;

/// Public identity of an account holder: a fixed 32-byte key. It is the unit
/// of ownership and authority throughout the registry, and the key material
/// from which per-sender storage addresses are derived.
#[derive(Clone)]
pub struct AccountId {
    pub bytes: Vec<u8>,
}

impl View for AccountId {
    type V = Seq<u8>;

    open spec fn view(&self) -> Seq<u8> {
        self.bytes@
    }
}

impl AccountId {
    /// An identity is well formed when it holds exactly 32 key bytes.
    pub open spec fn wf(&self) -> bool {
        self@.len() == ACCOUNT_ID_LEN
    }

    /// Builds an identity from key bytes; rejects any length other than 32.
    pub fn new(bytes: Vec<u8>) -> (r: Option<AccountId>)
        ensures
            bytes@.len() == ACCOUNT_ID_LEN ==> (r matches Some(id) && id@ == bytes@ && id.wf()),
            bytes@.len() != ACCOUNT_ID_LEN ==> r is None,
    {
        if bytes.len() == ACCOUNT_ID_LEN {
            Some(AccountId { bytes })
        } else {
            None
        }
    }

    /// Copies the identity; the copy denotes the same key.
    pub fn dup(&self) -> (r: AccountId)
        ensures
            r@ == self@,
    {
        AccountId { bytes: copy_bytes(&self.bytes) }
    }
}

} // verus!
