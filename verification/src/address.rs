//! The addresses under which the records are stored. Each is derived from a
//! tag that names the kind of record, followed by what identifies the record
//! among its kind, so that anyone can find a record from what they know.

use crate::identity::Identity;
use vstd::prelude::*;
use vstd::slice::slice_to_vec;
use vstd::string::StrSliceExecFns;
use vstd::string::StringSliceAdditionalSpecFns;
use vstd::utf8::encode_utf8;

verus! {

/// The address that a program's seeds lead to, with the bump seed that was
/// appended to them to reach it; none where the seeds lead to no address.
pub uninterp spec fn derived_address(seeds: Seq<Seq<u8>>, program_id: Seq<u8>) -> Option<(Seq<u8>, u8)>;

/// The seeds of the configuration's address: its tag alone.
pub open spec fn config_seeds() -> Seq<Seq<u8>> {
    seq!["config".spec_bytes()]
}

/// The seeds of a listing's address: its tag, then the skill identifier.
pub open spec fn listing_seeds(skill_id: Seq<char>) -> Seq<Seq<u8>> {
    seq!["listing".spec_bytes(), encode_utf8(skill_id)]
}

/// The seeds of a receipt's address: its tag, then the buyer, then the
/// skill identifier.
pub open spec fn receipt_seeds(buyer: Identity, skill_id: Seq<char>) -> Seq<Seq<u8>> {
    seq!["receipt".spec_bytes(), buyer@, encode_utf8(skill_id)]
}

/// The bytes of each seed, in order.
pub open spec fn seed_bytes(seeds: Seq<Vec<u8>>) -> Seq<Seq<u8>> {
    seeds.map_values(|seed: Vec<u8>| seed@)
}

/// Calls `Pubkey::try_find_program_address` of `anchor_lang`, which hashes
/// the seeds, a bump seed and the program's identity, trying bump seeds from
/// 255 downwards until the hash is no point of the curve. Nothing of this is
/// proved here. The contract claims that the result is a function of the
/// seeds and the program's identity alone, which `derived_address` names,
/// and that the call gives nothing where a seed has more than 32 bytes.
#[verifier::external_body]
fn find_program_address(seeds: &Vec<Vec<u8>>, program_id: &Identity) -> (found: Option<(Identity, u8)>)
    ensures
        found matches Some(pair) ==> derived_address(seed_bytes(seeds@), program_id@) == Some(
            (pair.0@, pair.1),
        ),
        found is None ==> derived_address(seed_bytes(seeds@), program_id@) is None,
        (exists|i: int| 0 <= i < seeds.len() && seeds[i].len() > 32) ==> found is None,
{
    let parts: Vec<&[u8]> = seeds.iter().map(|seed| seed.as_slice()).collect();
    let program = anchor_lang::prelude::Pubkey::new_from_array(program_id.bytes);
    match anchor_lang::prelude::Pubkey::try_find_program_address(&parts, &program) {
        Some((address, bump)) => Some((Identity { bytes: address.to_bytes() }, bump)),
        None => None,
    }
}

/// Whether `found` is the address that the seeds lead to.
pub open spec fn is_derived(
    found: Option<(Identity, u8)>,
    seeds: Seq<Seq<u8>>,
    program_id: Identity,
) -> bool {
    match found {
        Some(pair) => derived_address(seeds, program_id@) == Some((pair.0@, pair.1)),
        None => derived_address(seeds, program_id@) is None,
    }
}

/// The address of the configuration of the program `program_id`, with its
/// bump seed.
pub fn config_address(program_id: &Identity) -> (found: Option<(Identity, u8)>)
    ensures
        is_derived(found, config_seeds(), *program_id),
{
    let mut seeds: Vec<Vec<u8>> = Vec::new();
    seeds.push("config".as_bytes_vec());
    proof {
        assert(seed_bytes(seeds@) =~= config_seeds());
    }
    find_program_address(&seeds, program_id)
}

/// The address of the listing of `skill_id`, with its bump seed. An
/// identifier of more than 32 bytes has no address.
pub fn listing_address(program_id: &Identity, skill_id: &String) -> (found: Option<(Identity, u8)>)
    ensures
        is_derived(found, listing_seeds(skill_id@), *program_id),
        encode_utf8(skill_id@).len() > 32 ==> found is None,
{
    let mut seeds: Vec<Vec<u8>> = Vec::new();
    seeds.push("listing".as_bytes_vec());
    seeds.push(skill_id.as_str().as_bytes_vec());
    proof {
        assert(seed_bytes(seeds@) =~= listing_seeds(skill_id@));
        assert(seeds[1]@ == encode_utf8(skill_id@));
    }
    find_program_address(&seeds, program_id)
}

/// The address of the receipt that `buyer` gets for `skill_id`, with its
/// bump seed. An identifier of more than 32 bytes has no address.
pub fn receipt_address(
    program_id: &Identity,
    buyer: &Identity,
    skill_id: &String,
) -> (found: Option<(Identity, u8)>)
    ensures
        is_derived(found, receipt_seeds(*buyer, skill_id@), *program_id),
        encode_utf8(skill_id@).len() > 32 ==> found is None,
{
    let mut seeds: Vec<Vec<u8>> = Vec::new();
    seeds.push("receipt".as_bytes_vec());
    seeds.push(slice_to_vec(buyer.bytes.as_slice()));
    seeds.push(skill_id.as_str().as_bytes_vec());
    proof {
        assert(seed_bytes(seeds@) =~= receipt_seeds(*buyer, skill_id@));
        assert(seeds[2]@ == encode_utf8(skill_id@));
    }
    find_program_address(&seeds, program_id)
}

} // verus!
