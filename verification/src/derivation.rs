//! Deterministic derivation of escrow addresses.
//!
//! An escrow lives at an address computed from a fixed tag, the maker's
//! address and the little-endian bytes of the maker's seed. The hashing is
//! done by `anchor_lang`'s `Pubkey`; this module builds the seed list and
//! states what the two derivation calls give back.

use crate::address::address_of;
use crate::address::lemma_address_of_view;
use crate::address::Address;
use anchor_lang::prelude::Pubkey;
use anchor_lang::solana_program::pubkey::PubkeyError;
use vstd::bytes::spec_u64_to_le_bytes;
use vstd::bytes::u64_to_le_bytes;
use vstd::prelude::*;

verus! {

/// The error type of `Pubkey::create_program_address`.
#[verifier::external_type_specification]
#[verifier::external_body]
pub struct ExPubkeyError(PubkeyError);

/// What `Pubkey::create_program_address` returns for a seed list and a
/// program id: the derived address, or `None` where it reports an error.
pub uninterp spec fn program_address(seeds: Seq<Seq<u8>>, program_id: Seq<u8>) -> Option<Seq<u8>>;

/// What `Pubkey::try_find_program_address` returns for a seed list and a
/// program id: the derived address with its bump, or `None`.
pub uninterp spec fn found_program_address(seeds: Seq<Seq<u8>>, program_id: Seq<u8>) -> Option<
    (Seq<u8>, u8),
>;

/// The seed list as a sequence of byte strings.
pub open spec fn seeds_view(seeds: Vec<Vec<u8>>) -> Seq<Seq<u8>> {
    Seq::new(seeds@.len(), |i: int| seeds@[i]@)
}

/// Calls `Pubkey::create_program_address`.
///
/// Trusted: the result is a function of the seeds and the program id alone,
/// named `program_address`; an error of the outside function stands for `None`.
#[verifier::external_body]
fn create_program_address(seeds: &Vec<Vec<u8>>, program_id: &Address) -> (r: Result<
    Address,
    PubkeyError,
>)
    ensures
        match r {
            Ok(a) => program_address(seeds_view(*seeds), program_id@) == Some(a@),
            Err(_) => program_address(seeds_view(*seeds), program_id@) is None,
        },
{
    let parts: Vec<&[u8]> = seeds.iter().map(|s| s.as_slice()).collect();
    let program = Pubkey::new_from_array(program_id.bytes);
    Pubkey::create_program_address(&parts, &program).map(|k| Address { bytes: k.to_bytes() })
}

/// Calls `Pubkey::try_find_program_address`.
///
/// Trusted: the result is a function of the seeds and the program id alone,
/// named `found_program_address`; and where an address is found, it is the one
/// that `Pubkey::create_program_address` gives for the same seeds followed by
/// the one-byte bump.
#[verifier::external_body]
fn try_find_program_address(seeds: &Vec<Vec<u8>>, program_id: &Address) -> (r: Option<
    (Address, u8),
>)
    ensures
        match r {
            Some((a, bump)) => {
                &&& found_program_address(seeds_view(*seeds), program_id@) == Some((a@, bump))
                &&& program_address(seeds_view(*seeds).push(seq![bump]), program_id@) == Some(a@)
            },
            None => found_program_address(seeds_view(*seeds), program_id@) is None,
        },
{
    let parts: Vec<&[u8]> = seeds.iter().map(|s| s.as_slice()).collect();
    let program = Pubkey::new_from_array(program_id.bytes);
    Pubkey::try_find_program_address(&parts, &program).map(|(k, b)| (Address { bytes: k.to_bytes() }, b))
}

/// The bytes of the program id under which escrow addresses are derived.
pub const PROGRAM_ID: [u8; 32] = [
    208, 211, 166, 131, 182, 3, 62, 202, 185, 159, 77, 95, 119, 113, 122, 23,
    207, 146, 51, 68, 149, 127, 108, 203, 137, 186, 166, 72, 8, 222, 193, 154,
];

/// The program id under which escrow addresses are derived.
pub open spec fn program_id() -> Address {
    Address { bytes: PROGRAM_ID }
}

/// The program id under which escrow addresses are derived.
pub fn id() -> (a: Address)
    ensures
        a == program_id(),
{
    Address { bytes: PROGRAM_ID }
}

/// The tag that opens the seed list of every escrow: the bytes of `escrow`.
pub open spec fn escrow_tag() -> Seq<u8> {
    seq![101u8, 115u8, 99u8, 114u8, 111u8, 119u8]
}

/// The seed list of the escrow that `maker` opens under `seed`: the tag, the
/// maker's address and the seed in little-endian bytes.
pub open spec fn escrow_seeds(maker: Address, seed: u64) -> Seq<Seq<u8>> {
    seq![escrow_tag(), maker@, spec_u64_to_le_bytes(seed)]
}

/// The seed list with which an escrow's authority signs: the escrow's seeds
/// followed by the one-byte proof.
pub open spec fn signer_seeds(maker: Address, seed: u64, bump: u8) -> Seq<Seq<u8>> {
    escrow_seeds(maker, seed).push(seq![bump])
}

/// The address of the escrow that `maker` opens under `seed`, with the proof
/// that goes into its record; `None` where no address can be derived.
pub open spec fn escrow_address(maker: Address, seed: u64) -> Option<(Address, u8)> {
    match found_program_address(escrow_seeds(maker, seed), program_id()@) {
        Some((bytes, bump)) => Some((address_of(bytes), bump)),
        None => None,
    }
}

/// The authority that the proof `bump` derives again for `maker` and `seed`;
/// `None` where it derives none.
pub open spec fn escrow_authority(maker: Address, seed: u64, bump: u8) -> Option<Address> {
    match program_address(signer_seeds(maker, seed, bump), program_id()@) {
        Some(bytes) => Some(address_of(bytes)),
        None => None,
    }
}

fn tag_bytes() -> (tag: Vec<u8>)
    ensures
        tag@ == escrow_tag(),
{
    let mut tag: Vec<u8> = Vec::new();
    tag.push(101);
    tag.push(115);
    tag.push(99);
    tag.push(114);
    tag.push(111);
    tag.push(119);
    tag
}

fn address_bytes(address: &Address) -> (bytes: Vec<u8>)
    ensures
        bytes@ == address@,
{
    let mut bytes: Vec<u8> = Vec::new();
    let mut i: usize = 0;
    while i < 32
        invariant
            i <= 32,
            bytes@.len() == i,
            forall|j: int| 0 <= j < i ==> bytes@[j] == address.bytes[j],
        decreases 32 - i,
    {
        bytes.push(address.bytes[i]);
        i += 1;
    }
    bytes
}

/// The seed list of the escrow that `maker` opens under `seed`.
pub fn seeds(maker: &Address, seed: u64) -> (list: Vec<Vec<u8>>)
    ensures
        seeds_view(list) == escrow_seeds(*maker, seed),
{
    let mut list: Vec<Vec<u8>> = Vec::new();
    list.push(tag_bytes());
    list.push(address_bytes(maker));
    list.push(u64_to_le_bytes(seed));
    list
}

/// The seed list with which the escrow's authority signs.
pub fn seeds_with_bump(maker: &Address, seed: u64, bump: u8) -> (list: Vec<Vec<u8>>)
    ensures
        seeds_view(list) == signer_seeds(*maker, seed, bump),
{
    let mut list = seeds(maker, seed);
    let mut proof_byte: Vec<u8> = Vec::new();
    proof_byte.push(bump);
    list.push(proof_byte);
    list
}

/// Derives the address of the escrow that `maker` opens under `seed`, and the
/// proof to keep in its record. The same inputs always give the same pair,
/// and the proof derives the same address again.
pub fn derive(maker: &Address, seed: u64) -> (r: Option<(Address, u8)>)
    ensures
        r == escrow_address(*maker, seed),
        r matches Some((address, bump)) ==> escrow_authority(*maker, seed, bump) == Some(address),
{
    let list = seeds(maker, seed);
    let program = id();
    let r = try_find_program_address(&list, &program);
    proof {
        if let Some((address, bump)) = r {
            lemma_address_of_view(address);
        }
    }
    r
}

/// Derives again, from the stored proof, the authority of the escrow that
/// `maker` opened under `seed`.
pub fn authority(maker: &Address, seed: u64, bump: u8) -> (r: Option<Address>)
    ensures
        r == escrow_authority(*maker, seed, bump),
{
    let list = seeds_with_bump(maker, seed, bump);
    let program = id();
    match create_program_address(&list, &program) {
        Ok(address) => {
            proof {
                lemma_address_of_view(address);
            }
            Some(address)
        },
        Err(_) => None,
    }
}

} // verus!
