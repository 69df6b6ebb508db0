use vstd::prelude::*;
use vstd::slice::*;
use vstd::string::*;
use vstd::utf8::*;
use anchor_lang::prelude::Pubkey;
use crate::identity::Identity;

verus! {

/// The location of an entry: an address, and the nonce that the derivation
/// had to add to the seeds to arrive at it.
#[derive(Clone, Copy, Debug)]
pub struct Slot {
    /// Where the entry is stored.
    pub address: Identity,
    /// The nonce that was added to the seeds.
    pub bump: u8,
}

/// The address and the bump that the host's program-address derivation
/// settles on for `seeds` under the program `program_id`, or `None` where it
/// finds none. The derivation hashes its inputs and reads nothing else, so the
/// same inputs give the same answer everywhere.
pub uninterp spec fn program_address(seeds: Seq<Seq<u8>>, program_id: Seq<u8>) -> Option<
    (Seq<u8>, u8),
>;

/// The mathematical content of a derivation's answer.
pub open spec fn slot_view(slot: Option<Slot>) -> Option<(Seq<u8>, u8)> {
    match slot {
        Some(slot) => Some((slot.address@, slot.bump)),
        None => None,
    }
}

/// Calls `Pubkey::try_find_program_address` with `seeds` and `program_id`.
///
/// Trusted, not proved: the answer is the one that [`program_address`] names
/// for these seeds and this program, address and bump alike, and `None`
/// exactly where the search finds no address.
#[verifier::external_body]
fn try_find_program_address(seeds: &Vec<Vec<u8>>, program_id: &Identity) -> (found: Option<Slot>)
    ensures
        slot_view(found) == program_address(seeds.deep_view(), program_id@),
{
    let seeds: Vec<&[u8]> = seeds.iter().map(|seed| seed.as_slice()).collect();
    let program_id = Pubkey::new_from_array(program_id.bytes);
    match Pubkey::try_find_program_address(&seeds, &program_id) {
        Some((address, bump)) => Some(Slot { address: Identity { bytes: address.to_bytes() }, bump }),
        None => None,
    }
}

/// The tag that sets this registry's locations apart from every other use of
/// the derivation: the bytes of the word `stealth`.
pub open spec fn namespace() -> Seq<u8> {
    encode_utf8("stealth"@)
}

/// The seeds from which the location of `handle` is derived: the namespace
/// tag, then the bytes of the handle.
pub open spec fn seeds_of(handle: Seq<char>) -> Seq<Seq<u8>> {
    seq![namespace(), encode_utf8(handle)]
}

/// Where the entry of `handle` lives in the registry of `program_id`, if the
/// derivation finds a place for it. It depends on nothing but the two.
pub open spec fn slot_for(program_id: Seq<u8>, handle: Seq<char>) -> Option<(Seq<u8>, u8)> {
    program_address(seeds_of(handle), program_id)
}

/// Builds the derivation seeds of `handle`.
pub fn slot_seeds(handle: &str) -> (seeds: Vec<Vec<u8>>)
    ensures
        seeds.deep_view() == seeds_of(handle@),
{
    let mut seeds: Vec<Vec<u8>> = Vec::new();
    seeds.push(slice_to_vec("stealth".as_bytes()));
    seeds.push(slice_to_vec(handle.as_bytes()));
    proof {
        assert(seeds[0].deep_view() =~= namespace());
        assert(seeds[1].deep_view() =~= encode_utf8(handle@));
        assert(seeds.deep_view() =~= seeds_of(handle@));
    }
    seeds
}

/// Derives the location of `handle` in the registry of `program_id`.
pub fn derive_slot(program_id: &Identity, handle: &str) -> (slot: Option<Slot>)
    ensures
        slot_view(slot) == slot_for(program_id@, handle@),
{
    let seeds = slot_seeds(handle);
    try_find_program_address(&seeds, program_id)
}

} // verus!
