//! Derived addresses: identities computed from seeds, with no private key,
//! on which only this program can act.
use anchor_lang::prelude::Pubkey;
use vstd::bytes::{spec_u64_to_le_bytes, u64_to_le_bytes};
use vstd::prelude::*;
use vstd::slice::slice_to_vec;
use vstd::string::{StrSliceExecFns, StringSliceAdditionalSpecFns};

verus! {

/// The address and bump that the addressing scheme finds for `seeds` under
/// `program_id`, or `None` where no bump gives a valid address.
pub uninterp spec fn program_address(seeds: Seq<Seq<u8>>, program_id: Seq<u8>) -> Option<(Seq<u8>, u8)>;

/// An address and bump as plain values.
pub open spec fn found_view(r: Option<([u8; 32], u8)>) -> Option<(Seq<u8>, u8)> {
    match r {
        Some((a, b)) => Some((a@, b)),
        None => None,
    }
}

/// Relies on `Pubkey::try_find_program_address`: the address and bump it
/// finds, or its failure, depend on the seeds and the program id alone.
#[verifier::external_body]
fn find_program_address(seeds: &Vec<Vec<u8>>, program_id: &[u8; 32]) -> (r: Option<([u8; 32], u8)>)
    ensures
        found_view(r) == program_address(seeds.deep_view(), program_id@),
{
    let refs: Vec<&[u8]> = seeds.iter().map(Vec::as_slice).collect();
    match Pubkey::try_find_program_address(&refs, &Pubkey::new_from_array(*program_id)) {
        Some((key, bump)) => Some((key.to_bytes(), bump)),
        None => None,
    }
}

/// Seeds of a marketplace: the tag `marketplace` and its name.
pub open spec fn marketplace_seeds(name: Seq<u8>) -> Seq<Seq<u8>> {
    seq!["marketplace".spec_bytes(), name]
}

/// Seeds of a marketplace's treasury: the tag `treasury` and the
/// marketplace's address.
pub open spec fn treasury_seeds(marketplace: Seq<u8>) -> Seq<Seq<u8>> {
    seq!["treasury".spec_bytes(), marketplace]
}

/// Seeds of a listing: the marketplace's address and the asset's id.
pub open spec fn listing_seeds(marketplace: Seq<u8>, asset: u64) -> Seq<Seq<u8>> {
    seq![marketplace, spec_u64_to_le_bytes(asset)]
}

/// Derives from a pair of seeds.
fn find_for_pair(first: Vec<u8>, second: Vec<u8>, program_id: &[u8; 32]) -> (r: Option<([u8; 32], u8)>)
    ensures
        found_view(r) == program_address(seq![first@, second@], program_id@),
{
    let ghost s = seq![first@, second@];
    let mut seeds: Vec<Vec<u8>> = Vec::new();
    seeds.push(first);
    seeds.push(second);
    assert(seeds.deep_view() =~= s) by {
        assert(seeds@[0].deep_view() =~= s[0]);
        assert(seeds@[1].deep_view() =~= s[1]);
    }
    find_program_address(&seeds, program_id)
}

/// The address and bump of the marketplace named `name`.
pub fn marketplace_address(program_id: &[u8; 32], name: &Vec<u8>) -> (r: Option<([u8; 32], u8)>)
    ensures
        found_view(r) == program_address(marketplace_seeds(name@), program_id@),
{
    find_for_pair("marketplace".as_bytes_vec(), name.clone(), program_id)
}

/// The address and bump of the treasury of the marketplace at `marketplace`.
pub fn treasury_address(program_id: &[u8; 32], marketplace: &[u8; 32]) -> (r: Option<([u8; 32], u8)>)
    ensures
        found_view(r) == program_address(treasury_seeds(marketplace@), program_id@),
{
    find_for_pair("treasury".as_bytes_vec(), slice_to_vec(marketplace.as_slice()), program_id)
}

/// The address and bump of the listing of `asset` in the marketplace at
/// `marketplace`.
pub fn listing_address(program_id: &[u8; 32], marketplace: &[u8; 32], asset: u64) -> (r: Option<([u8; 32], u8)>)
    ensures
        found_view(r) == program_address(listing_seeds(marketplace@, asset), program_id@),
{
    find_for_pair(slice_to_vec(marketplace.as_slice()), u64_to_le_bytes(asset), program_id)
}

} // verus!
