//! The record kept for each open escrow.

use crate::address::lemma_address_view_injective;
use crate::address::Address;
use vstd::bytes::lemma_auto_spec_u64_to_from_le_bytes;
use vstd::bytes::spec_u64_to_le_bytes;
use vstd::bytes::u64_from_le_bytes;
use vstd::bytes::u64_to_le_bytes;
use vstd::slice::slice_subrange;
use vstd::prelude::*;

verus! {

/// The terms of one open escrow. A record is written once, when the escrow is
/// opened, and never changed afterwards.
#[derive(Clone, Copy, Debug)]
pub struct Escrow {
    /// Disambiguator chosen by the maker; part of the escrow's address.
    pub seed: u64,
    /// The identity that opened the escrow.
    pub maker: Address,
    /// The asset that the maker deposited.
    pub mint_a: Address,
    /// The asset that the maker asks for.
    pub mint_b: Address,
    /// How much of `mint_b` the maker asks for.
    pub receive: u64,
    /// The one-byte proof with which the escrow's address is derived again.
    pub bump: u8,
}

impl Escrow {
    /// Number of bytes in the fixed-width layout of a record: the seed, three
    /// addresses, the amount and the proof.
    pub const INIT_SPACE: usize = 113;

    /// A record with the given terms.
    pub fn new(seed: u64, maker: Address, mint_a: Address, mint_b: Address, receive: u64, bump: u8) -> (e: Escrow)
        ensures
            e == (Escrow { seed, maker, mint_a, mint_b, receive, bump }),
    {
        Escrow { seed, maker, mint_a, mint_b, receive, bump }
    }

    /// The fixed-width layout of the record: the seed in 8 little-endian
    /// bytes, the maker and the two assets in 32 bytes each, the amount asked
    /// for in 8 little-endian bytes, and the proof in 1 byte.
    pub open spec fn layout(self) -> Seq<u8> {
        spec_u64_to_le_bytes(self.seed) + self.maker@ + self.mint_a@ + self.mint_b@
            + spec_u64_to_le_bytes(self.receive) + seq![self.bump]
    }

    /// The record in its fixed-width layout.
    pub fn to_bytes(&self) -> (bytes: Vec<u8>)
        ensures
            bytes@ == self.layout(),
            bytes@.len() == Escrow::INIT_SPACE,
    {
        let mut bytes = u64_to_le_bytes(self.seed);
        append_address(&mut bytes, &self.maker);
        append_address(&mut bytes, &self.mint_a);
        append_address(&mut bytes, &self.mint_b);
        let mut amount = u64_to_le_bytes(self.receive);
        bytes.append(&mut amount);
        bytes.push(self.bump);
        proof {
            lemma_auto_spec_u64_to_from_le_bytes();
        }
        bytes
    }

    /// Reads a record from its fixed-width layout. `None` where `bytes` does
    /// not have the length of a record; every sequence of that length is the
    /// layout of exactly one record.
    pub fn from_bytes(bytes: &[u8]) -> (r: Option<Escrow>)
        ensures
            r is Some <==> bytes@.len() == Escrow::INIT_SPACE,
            r matches Some(e) ==> e.layout() == bytes@,
    {
        if bytes.len() != 113 {
            return None;
        }
        let seed = u64_from_le_bytes(slice_subrange(bytes, 0, 8));
        let maker = read_address(bytes, 8);
        let mint_a = read_address(bytes, 40);
        let mint_b = read_address(bytes, 72);
        let receive = u64_from_le_bytes(slice_subrange(bytes, 104, 112));
        let bump = bytes[112];
        let e = Escrow { seed, maker, mint_a, mint_b, receive, bump };
        proof {
            lemma_auto_spec_u64_to_from_le_bytes();
        }
        Some(e)
    }
}

fn append_address(bytes: &mut Vec<u8>, address: &Address)
    ensures
        final(bytes)@ == old(bytes)@ + address@,
{
    let mut i: usize = 0;
    while i < 32
        invariant
            i <= 32,
            bytes@ == old(bytes)@ + address@.take(i as int),
        decreases 32 - i,
    {
        bytes.push(address.bytes[i]);
        i += 1;
    }
}

fn read_address(bytes: &[u8], at: usize) -> (address: Address)
    requires
        at + 32 <= bytes@.len(),
    ensures
        address@ == bytes@.subrange(at as int, at + 32),
{
    let mut read = [0u8; 32];
    let length = bytes.len();
    let mut i: usize = 0;
    while i < 32
        invariant
            i <= 32,
            length == bytes@.len(),
            at + 32 <= length,
            forall|j: int| 0 <= j < i ==> read[j] == bytes@[at + j],
        decreases 32 - i,
    {
        read[i] = bytes[at + i];
        i += 1;
    }
    Address { bytes: read }
}

/// Two records with the same layout are the same record.
pub proof fn lemma_layout_injective(first: Escrow, second: Escrow)
    requires
        first.layout() == second.layout(),
    ensures
        first == second,
{
    lemma_auto_spec_u64_to_from_le_bytes();
    lemma_fields_of_layout(first);
    lemma_fields_of_layout(second);
    lemma_address_view_injective(first.maker, second.maker);
    lemma_address_view_injective(first.mint_a, second.mint_a);
    lemma_address_view_injective(first.mint_b, second.mint_b);
}

/// Each field of a record stands at its fixed place in the layout.
proof fn lemma_fields_of_layout(e: Escrow)
    ensures
        e.layout().len() == 113,
        spec_u64_to_le_bytes(e.seed) == e.layout().subrange(0, 8),
        e.maker@ == e.layout().subrange(8, 40),
        e.mint_a@ == e.layout().subrange(40, 72),
        e.mint_b@ == e.layout().subrange(72, 104),
        spec_u64_to_le_bytes(e.receive) == e.layout().subrange(104, 112),
        e.bump == e.layout()[112],
{
    lemma_auto_spec_u64_to_from_le_bytes();
}

impl PartialEq for Escrow {
    fn eq(&self, other: &Escrow) -> (b: bool) {
        self.seed == other.seed && self.maker == other.maker && self.mint_a == other.mint_a
            && self.mint_b == other.mint_b && self.receive == other.receive && self.bump
            == other.bump
    }
}

impl Eq for Escrow {

}

impl vstd::std_specs::cmp::PartialEqSpecImpl for Escrow {
    open spec fn obeys_eq_spec() -> bool {
        true
    }

    open spec fn eq_spec(&self, other: &Escrow) -> bool {
        *self == *other
    }
}

} // verus!
