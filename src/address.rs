use vstd::prelude::*;
use crate::identity::Identity;
use anchor_lang::solana_program::pubkey::Pubkey;

verus! {

/// The program derived address and bump that the seeds and program id determine,
/// or `None` where no bump yields an address off the curve.
pub uninterp spec fn program_address(seeds: Seq<Seq<u8>>, program_id: Seq<u8>) -> Option<(Seq<u8>, u8)>;

pub open spec fn seeds_view(seeds: Seq<Vec<u8>>) -> Seq<Seq<u8>> {
    seeds.map_values(|s: Vec<u8>| s@)
}

/// What a resolver call returned agrees with `program_address`.
pub open spec fn resolves_to(r: Option<(Identity, u8)>, seeds: Seq<Seq<u8>>, program_id: Seq<u8>) -> bool {
    match r {
        Some((a, b)) => program_address(seeds, program_id) == Some((a@, b)),
        None => program_address(seeds, program_id) is None,
    }
}

/// Relies on `Pubkey::try_find_program_address`: it hashes the seeds, a bump and the
/// program id, trying bumps from 255 down, so the result depends on those bytes alone.
#[verifier::external_body]
fn try_find_program_address(seeds: &Vec<Vec<u8>>, program_id: &Identity) -> (r: Option<(Identity, u8)>)
    ensures
        match r {
            Some((a, b)) => program_address(seeds_view(seeds@), program_id@) == Some((a@, b)),
            None => program_address(seeds_view(seeds@), program_id@) is None,
        },
{
    let s: Vec<&[u8]> = seeds.iter().map(|v| v.as_slice()).collect();
    let id = Pubkey::new_from_array(program_id.bytes);
    Pubkey::try_find_program_address(&s, &id).map(|(a, b)| (Identity { bytes: a.to_bytes() }, b))
}

/// Namespace tag of claim status records.
pub open spec fn claim_status_tag() -> Seq<u8> {
    seq![67u8, 76u8, 65u8, 73u8, 77u8, 95u8, 83u8, 84u8, 65u8, 84u8, 85u8, 83u8]
}

/// Namespace tag of the distribution config singleton.
pub open spec fn config_tag() -> Seq<u8> {
    seq![
        68u8, 73u8, 83u8, 84u8, 82u8, 73u8, 66u8, 85u8, 84u8, 73u8, 79u8, 78u8, 95u8, 67u8,
        79u8, 78u8, 70u8, 73u8, 71u8, 95u8, 65u8, 67u8, 67u8, 79u8, 85u8, 78u8, 84u8,
    ]
}

pub open spec fn claim_status_seeds(claimant: Seq<u8>, pool: Seq<u8>) -> Seq<Seq<u8>> {
    seq![claim_status_tag(), claimant, pool]
}

pub open spec fn config_seeds() -> Seq<Seq<u8>> {
    seq![config_tag()]
}

/// The derived address of the claim status record of `claimant` in `pool`.
pub fn claim_status_address(claimant: &Identity, pool: &Identity, program_id: &Identity) -> (r: Option<(Identity, u8)>)
    ensures
        resolves_to(r, claim_status_seeds(claimant@, pool@), program_id@),
{
    let tag: Vec<u8> = vec![67u8, 76u8, 65u8, 73u8, 77u8, 95u8, 83u8, 84u8, 65u8, 84u8, 85u8, 83u8];
    let mut seeds: Vec<Vec<u8>> = Vec::new();
    seeds.push(tag);
    seeds.push(claimant.to_vec());
    seeds.push(pool.to_vec());
    assert(seeds_view(seeds@) =~= claim_status_seeds(claimant@, pool@));
    try_find_program_address(&seeds, program_id)
}

/// The derived address of the distribution config singleton.
pub fn config_address(program_id: &Identity) -> (r: Option<(Identity, u8)>)
    ensures
        resolves_to(r, config_seeds(), program_id@),
{
    let tag: Vec<u8> = vec![
        68u8, 73u8, 83u8, 84u8, 82u8, 73u8, 66u8, 85u8, 84u8, 73u8, 79u8, 78u8, 95u8, 67u8,
        79u8, 78u8, 70u8, 73u8, 71u8, 95u8, 65u8, 67u8, 67u8, 79u8, 85u8, 78u8, 84u8,
    ];
    let mut seeds: Vec<Vec<u8>> = Vec::new();
    seeds.push(tag);
    assert(seeds_view(seeds@) =~= config_seeds());
    try_find_program_address(&seeds, program_id)
}

} // verus!
