//! Account addresses: 32 opaque bytes that name an identity, an asset or a
//! derived account.

use crate::table::Key;
use vstd::prelude::*;

verus! {

/// A 32-byte ledger address.
#[derive(Clone, Copy, Debug)]
pub struct Address {
    pub bytes: [u8; 32],
}

impl View for Address {
    type V = Seq<u8>;

    open spec fn view(&self) -> Seq<u8> {
        self.bytes@
    }
}

impl Address {
    /// The address made of the given bytes.
    pub fn new(bytes: [u8; 32]) -> (a: Address)
        ensures
            a.bytes == bytes,
    {
        Address { bytes }
    }

    /// The bytes of the address.
    pub fn to_bytes(&self) -> (bytes: [u8; 32])
        ensures
            bytes == self.bytes,
    {
        self.bytes
    }
}

impl PartialEq for Address {
    fn eq(&self, other: &Address) -> (b: bool) {
        let mut i: usize = 0;
        while i < 32
            invariant
                i <= 32,
                forall|j: int| 0 <= j < i ==> self.bytes[j] == other.bytes[j],
            decreases 32 - i,
        {
            if self.bytes[i] != other.bytes[i] {
                return false;
            }
            i += 1;
        }
        assert(self.bytes =~= other.bytes);
        true
    }
}

impl Eq for Address {

}

impl vstd::std_specs::cmp::PartialEqSpecImpl for Address {
    open spec fn obeys_eq_spec() -> bool {
        true
    }

    open spec fn eq_spec(&self, other: &Address) -> bool {
        *self == *other
    }
}

impl Key for Address {
    fn same(&self, other: &Address) -> (b: bool) {
        *self == *other
    }
}

/// The address whose bytes are `bytes`.
pub open spec fn address_of(bytes: Seq<u8>) -> Address {
    choose|a: Address| a@ == bytes
}

/// Two addresses are equal exactly when their bytes agree.
pub proof fn lemma_address_view_injective(a: Address, b: Address)
    ensures
        a@ == b@ <==> a == b,
        a@.len() == 32,
{
    if a@ == b@ {
        assert(a.bytes =~= b.bytes);
    }
}

/// `address_of` gives back the address that a view came from.
pub proof fn lemma_address_of_view(a: Address)
    ensures
        address_of(a@) == a,
{
    lemma_address_view_injective(address_of(a@), a);
}

} // verus!
