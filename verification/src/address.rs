//! Record addresses: each record lives at an address derived from a tag that
//! names its kind and from the values that identify it.

use vstd::prelude::*;
use vstd::bytes::spec_u64_to_le_bytes;
use vstd::bytes::u64_to_le_bytes;
use crate::identity::Identity;

verus! {

/// The program-derived address and bump seed that belong to a list of seeds
/// under a program, or `None` where the seeds admit no such address.
pub uninterp spec fn program_address(seeds: Seq<Seq<u8>>, program_id: Seq<u8>) -> Option<(Seq<u8>, u8)>;

/// The seeds held by a vector of byte strings.
pub open spec fn seeds_view(seeds: &Vec<Vec<u8>>) -> Seq<Seq<u8>> {
    Seq::new(seeds@.len(), |i: int| seeds@[i]@)
}

/// A derived address and its bump seed, as plain values.
pub open spec fn found_view(found: Option<(Identity, u8)>) -> Option<(Seq<u8>, u8)> {
    match found {
        Some((address, bump)) => Some((address@, bump)),
        None => None,
    }
}

/// Calls `Pubkey::try_find_program_address` of `anchor_lang` (re-exported from
/// `solana_program`). Nothing is proved of the derivation itself: the contract
/// only says that the outcome is the one that `program_address` names for
/// these seeds and this program.
#[verifier::external_body]
fn find_program_address(seeds: &Vec<Vec<u8>>, program_id: &Identity) -> (found: Option<(Identity, u8)>)
    ensures
        found_view(found) == program_address(seeds_view(seeds), program_id@),
{
    let parts: Vec<&[u8]> = seeds.iter().map(|seed| seed.as_slice()).collect();
    let program = anchor_lang::prelude::Pubkey::new_from_array(program_id.bytes);
    match anchor_lang::prelude::Pubkey::try_find_program_address(&parts, &program) {
        Some((address, bump)) => Some((Identity { bytes: address.to_bytes() }, bump)),
        None => None,
    }
}

/// Tag of a job address: the ASCII bytes of `job`.
pub open spec fn job_tag() -> Seq<u8> {
    seq![0x6au8, 0x6fu8, 0x62u8]
}

/// Tag of an application address: the ASCII bytes of `application`.
pub open spec fn application_tag() -> Seq<u8> {
    seq![0x61u8, 0x70u8, 0x70u8, 0x6cu8, 0x69u8, 0x63u8, 0x61u8, 0x74u8, 0x69u8, 0x6fu8, 0x6eu8]
}

/// Tag of a payment address: the ASCII bytes of `payment`.
pub open spec fn payment_tag() -> Seq<u8> {
    seq![0x70u8, 0x61u8, 0x79u8, 0x6du8, 0x65u8, 0x6eu8, 0x74u8]
}

/// Seeds of a job: the tag, then the job id in little-endian order.
pub open spec fn job_seeds(job_id: u64) -> Seq<Seq<u8>> {
    seq![job_tag(), spec_u64_to_le_bytes(job_id)]
}

/// Seeds of an application: the tag, the job id in little-endian order, then
/// the applicant.
pub open spec fn application_seeds(job_id: u64, applicant: Seq<u8>) -> Seq<Seq<u8>> {
    seq![application_tag(), spec_u64_to_le_bytes(job_id), applicant]
}

/// Seeds of a payment: the tag, the paying user, then the two's-complement
/// bytes of the time of payment in little-endian order.
pub open spec fn payment_seeds(user: Seq<u8>, timestamp: i64) -> Seq<Seq<u8>> {
    seq![payment_tag(), user, spec_u64_to_le_bytes(timestamp as u64)]
}

/// The address part of a derivation.
pub open spec fn address_of(found: Option<(Seq<u8>, u8)>) -> Option<Seq<u8>> {
    match found {
        Some((address, _)) => Some(address),
        None => None,
    }
}

/// Address of the job with this id under a program.
pub open spec fn job_address(program_id: Seq<u8>, job_id: u64) -> Option<Seq<u8>> {
    address_of(program_address(job_seeds(job_id), program_id))
}

/// Address of the application of one applicant to the job with this id.
pub open spec fn application_address(program_id: Seq<u8>, job_id: u64, applicant: Seq<u8>) -> Option<Seq<u8>> {
    address_of(program_address(application_seeds(job_id, applicant), program_id))
}

/// Address of the payment that a user makes at a given time.
pub open spec fn payment_address(program_id: Seq<u8>, user: Seq<u8>, timestamp: i64) -> Option<Seq<u8>> {
    address_of(program_address(payment_seeds(user, timestamp), program_id))
}

/// An optional identity as an optional byte string.
pub open spec fn option_view(id: Option<Identity>) -> Option<Seq<u8>> {
    match id {
        Some(id) => Some(id@),
        None => None,
    }
}

fn identity_seed(id: &Identity) -> (seed: Vec<u8>)
    ensures
        seed@ == id@,
{
    let mut seed: Vec<u8> = Vec::new();
    let mut i: usize = 0;
    while i < 32
        invariant
            0 <= i <= 32,
            seed@.len() == i,
            forall|j: int| 0 <= j < i ==> seed@[j] == id.bytes@[j],
        decreases 32 - i,
    {
        seed.push(id.bytes[i]);
        i += 1;
    }
    assert(seed@ =~= id@);
    seed
}

fn derive(seeds: &Vec<Vec<u8>>, program_id: &Identity) -> (address: Option<Identity>)
    ensures
        option_view(address) == address_of(program_address(seeds_view(seeds), program_id@)),
{
    match find_program_address(seeds, program_id) {
        Some((address, _)) => Some(address),
        None => None,
    }
}

/// Derives the address of the job with this id.
pub fn derive_job_address(program_id: &Identity, job_id: u64) -> (address: Option<Identity>)
    ensures
        option_view(address) == job_address(program_id@, job_id),
{
    let mut seeds: Vec<Vec<u8>> = Vec::new();
    seeds.push(vec![0x6au8, 0x6fu8, 0x62u8]);
    seeds.push(u64_to_le_bytes(job_id));
    assert(seeds_view(&seeds) =~= job_seeds(job_id)) by {
        assert(seeds@[0]@ =~= job_tag());
    }
    derive(&seeds, program_id)
}

/// Derives the address of the application of `applicant` to the job with
/// this id.
pub fn derive_application_address(program_id: &Identity, job_id: u64, applicant: &Identity) -> (address: Option<Identity>)
    ensures
        option_view(address) == application_address(program_id@, job_id, applicant@),
{
    let mut seeds: Vec<Vec<u8>> = Vec::new();
    seeds.push(vec![0x61u8, 0x70u8, 0x70u8, 0x6cu8, 0x69u8, 0x63u8, 0x61u8, 0x74u8, 0x69u8, 0x6fu8, 0x6eu8]);
    seeds.push(u64_to_le_bytes(job_id));
    seeds.push(identity_seed(applicant));
    assert(seeds_view(&seeds) =~= application_seeds(job_id, applicant@)) by {
        assert(seeds@[0]@ =~= application_tag());
    }
    derive(&seeds, program_id)
}

/// Derives the address of the payment that `user` makes at `timestamp`.
pub fn derive_payment_address(program_id: &Identity, user: &Identity, timestamp: i64) -> (address: Option<Identity>)
    ensures
        option_view(address) == payment_address(program_id@, user@, timestamp),
{
    let mut seeds: Vec<Vec<u8>> = Vec::new();
    seeds.push(vec![0x70u8, 0x61u8, 0x79u8, 0x6du8, 0x65u8, 0x6eu8, 0x74u8]);
    seeds.push(identity_seed(user));
    seeds.push(u64_to_le_bytes(timestamp as u64));
    assert(seeds_view(&seeds) =~= payment_seeds(user@, timestamp)) by {
        assert(seeds@[0]@ =~= payment_tag());
    }
    derive(&seeds, program_id)
}

} // verus!
