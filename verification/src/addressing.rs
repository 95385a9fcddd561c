use vstd::prelude::*;

use crate::bytes::copy_bytes;

verus! {

/// Disambiguation proof attached to every derived address. In the hosting
/// ledger it is the bump chosen so that the address falls outside the space
/// of valid signing keys; the model fixes it to the canonical first choice,
/// which is all any in-scope operation ever supplies.
pub const DERIVATION_BUMP: u8 = 255;

/// Domain tag of a derived storage address. Each singleton and each family
/// of per-entity records has its own tag, so records of different kinds can
/// never share an address whatever key material they were derived from.
#[derive(Clone, Copy, PartialEq, Eq, Structural, Debug)]
pub enum Domain {
    Treasury,
    Bridge,
    FreezeAuthority,
    LandParcel,
    Transfer,
}

/// A deterministic storage address: reproducible by any party from the same
/// domain tag and key material, and collision-free across differing inputs
/// (`lemma_derive_injective`). Singleton domains use empty key material;
/// per-entity domains key by the parcel identifier or the sender identity.
#[derive(Clone)]
pub struct Address {
    pub domain: Domain,
    pub key: Vec<u8>,
    pub bump: u8,
}

/// Mathematical value of an address.
pub ghost struct AddressView {
    pub domain: Domain,
    pub key: Seq<u8>,
    pub bump: u8,
}

impl View for Address {
    type V = AddressView;

    open spec fn view(&self) -> AddressView {
        AddressView { domain: self.domain, key: self.key@, bump: self.bump }
    }
}

/// The address derived from a domain tag and key material.
pub open spec fn derive_spec(domain: Domain, key: Seq<u8>) -> AddressView {
    AddressView { domain, key, bump: DERIVATION_BUMP }
}

/// Derives the storage address for `key` under `domain`, together with its
/// derivation proof.
pub fn derive_address(domain: Domain, key: Vec<u8>) -> (r: Address)
    ensures
        r@ == derive_spec(domain, key@),
{
    Address { domain, key, bump: DERIVATION_BUMP }
}

impl Address {
    /// Copies the address; the copy denotes the same storage location.
    pub fn dup(&self) -> (r: Address)
        ensures
            r@ == self@,
    {
        Address { domain: self.domain, key: copy_bytes(&self.key), bump: self.bump }
    }

    /// Re-derives the address for `domain` and `key` and reports whether it
    /// is this one. An operation handed an address by a caller checks it
    /// this way and rejects a mismatch as a forged account.
    pub fn matches_derivation(&self, domain: Domain, key: &Vec<u8>) -> (r: bool)
        ensures
            r == (self@ == derive_spec(domain, key@)),
    {
        let keys_eq = self.key == *key;
        proof {
            if keys_eq {
                assert(self.key@ =~= key@);
            } else {
                assert(self.key@ != key@);
            }
        }
        let same = self.domain == domain && self.bump == DERIVATION_BUMP && keys_eq;
        proof {
            if same {
                assert(self@ == derive_spec(domain, key@));
            }
        }
        same
    }
}

/// Law: address derivation is injective. Two derived addresses coincide
/// exactly when both the domain tag and the key material coincide; in
/// particular, differing tags with identical key material never collide.
pub proof fn lemma_derive_injective(d1: Domain, k1: Seq<u8>, d2: Domain, k2: Seq<u8>)
    ensures
        derive_spec(d1, k1) == derive_spec(d2, k2) <==> (d1 == d2 && k1 == k2),
{
}

} // verus!
