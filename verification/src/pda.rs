use vstd::prelude::*;

use crate::account::{address_to_bytes, address_eq, Address};

verus! {

/// Seed tag for a custodial authority address.
pub const AUTHORITY_SEED: u8 = 1;

/// Seed tag for a vault address.
pub const VAULT_SEED: u8 = 2;

/// The address that the outside derivation computes for a seed tuple under a
/// program's namespace, or `None` when the candidate has a corresponding
/// private key and must be rejected.  The result is a pure function of the
/// seed tuple and the program id; its value is known only through
/// `create_address` below.
pub uninterp spec fn pda_address(seeds: Seq<Seq<u8>>, program_id: Seq<u8>) -> Option<Seq<u8>>;

/// Relies on solana_program's `Pubkey::create_program_address`: the derived
/// address is a hash of the seed tuple and the program id alone, so the same
/// inputs give the same address in every process; `Err` marks a candidate
/// that lies on the ed25519 curve (it would have a private key), which the
/// derivation refuses.  For at most 16 seeds of at most 32 bytes each the
/// call returns without panicking.
#[verifier::external_body]
fn create_address(seeds: &Vec<Vec<u8>>, program_id: &Address) -> (r: Option<Address>)
    requires
        seeds@.len() <= 16,
        forall|i: int| 0 <= i < seeds@.len() ==> seeds@[i]@.len() <= 32,
    ensures
        r matches Some(a) ==> pda_address(seeds.deep_view(), program_id@) == Some(a@),
        r is None ==> pda_address(seeds.deep_view(), program_id@) is None,
{
    let parts: Vec<&[u8]> = seeds.iter().map(|s| s.as_slice()).collect();
    let pid = solana_program::pubkey::Pubkey::new_from_array(program_id.bytes);
    match solana_program::pubkey::Pubkey::create_program_address(&parts, &pid) {
        Ok(a) => Some(Address { bytes: a.to_bytes() }),
        Err(_) => None,
    }
}

/// The seed tuples this engine derives addresses from: one authority per
/// escrow record, and one vault per authority.
#[derive(Clone, Copy, Debug)]
pub enum SeedKind {
    Authority { record_id: Address },
    Vault { authority: Address },
}

/// The seed tuple of a custodial authority: derived from the record it
/// serves, so that no two records share an authority.
pub open spec fn authority_seed_seqs(record_id: Seq<u8>) -> Seq<Seq<u8>> {
    seq![seq![AUTHORITY_SEED], record_id]
}

/// The seed tuple of a vault: derived from the authority that custodies it.
pub open spec fn vault_seed_seqs(authority: Seq<u8>) -> Seq<Seq<u8>> {
    seq![seq![VAULT_SEED], authority]
}

/// The mathematical seed tuple for `k`, before the bump byte is appended.
pub open spec fn seed_seqs(k: SeedKind) -> Seq<Seq<u8>> {
    match k {
        SeedKind::Authority { record_id } => authority_seed_seqs(record_id@),
        SeedKind::Vault { authority } => vault_seed_seqs(authority@),
    }
}

/// Builds the executable seed tuple for `k` with `bump` appended.
fn build_seeds(k: &SeedKind, bump: u8) -> (v: Vec<Vec<u8>>)
    ensures
        v.deep_view() == seed_seqs(*k).push(seq![bump]),
        v@.len() == 3,
        forall|i: int| 0 <= i < v@.len() ==> #[trigger] v@[i]@.len() <= 32,
{
    let mut v: Vec<Vec<u8>> = Vec::new();
    let mut tag: Vec<u8> = Vec::new();
    match k {
        SeedKind::Authority { .. } => tag.push(AUTHORITY_SEED),
        SeedKind::Vault { .. } => tag.push(VAULT_SEED),
    }
    v.push(tag);
    match k {
        SeedKind::Authority { record_id } => v.push(address_to_bytes(record_id)),
        SeedKind::Vault { authority } => v.push(address_to_bytes(authority)),
    }
    let mut bump_seed: Vec<u8> = Vec::new();
    bump_seed.push(bump);
    v.push(bump_seed);
    proof {
        assert(v.deep_view() =~~= seed_seqs(*k).push(seq![bump]));
    }
    v
}

/// True exactly when `expected` is the address derived from `k`'s seed tuple
/// and `bump` under `program_id`.
pub open spec fn spec_derived_matches(
    expected: Address,
    program_id: Address,
    k: SeedKind,
    bump: u8,
) -> bool {
    pda_address(seed_seqs(k).push(seq![bump]), program_id@) == Some(expected@)
}

/// Recomputes the derivation for `k` and `bump` and compares the result with
/// a supplied address.  This check is the access-control boundary: it runs on
/// every path that assumes a derived authority's implicit signing right.
pub fn verify_derived(expected: &Address, program_id: &Address, k: &SeedKind, bump: u8) -> (r:
    bool)
    ensures
        r == spec_derived_matches(*expected, *program_id, *k, bump),
{
    let seeds = build_seeds(k, bump);
    match create_address(&seeds, program_id) {
        Some(a) => address_eq(&a, expected),
        None => false,
    }
}

/// The result of the descending bump search: the first bump from `bump`
/// downwards whose candidate address the derivation accepts, with that
/// address, or `None` when every remaining bump is refused.
pub open spec fn spec_find_bump(program_id: Seq<u8>, seeds: Seq<Seq<u8>>, bump: int) -> Option<
    (Seq<u8>, u8),
>
    decreases bump + 1,
{
    if bump < 0 {
        None
    } else {
        match pda_address(seeds.push(seq![bump as u8]), program_id) {
            Some(a) => Some((a, bump as u8)),
            None => spec_find_bump(program_id, seeds, bump - 1),
        }
    }
}

/// Finds the derived address for `k` under `program_id`, searching bumps in
/// descending order from 255, together with the bump that produced it.
pub fn find_derived_address(program_id: &Address, k: &SeedKind) -> (r: Option<(Address, u8)>)
    ensures
        match r {
            Some(pair) => spec_find_bump(program_id@, seed_seqs(*k), 255) == Some(
                (pair.0@, pair.1),
            ),
            None => spec_find_bump(program_id@, seed_seqs(*k), 255) is None,
        },
{
    let mut bump: u8 = 255;
    loop
        invariant
            spec_find_bump(program_id@, seed_seqs(*k), 255) == spec_find_bump(
                program_id@,
                seed_seqs(*k),
                bump as int,
            ),
        decreases bump as int + 1,
    {
        let seeds = build_seeds(k, bump);
        match create_address(&seeds, program_id) {
            Some(a) => {
                return Some((a, bump));
            },
            None => {},
        }
        if bump == 0 {
            proof {
                assert(spec_find_bump(program_id@, seed_seqs(*k), -1) is None);
            }
            return None;
        }
        bump = bump - 1;
    }
}

/// A found derivation verifies: the address and bump that the descending
/// search returns are exactly the ones the derivation accepts, so
/// `verify_derived` accepts them.
pub proof fn lemma_found_bump_matches(program_id: Seq<u8>, seeds: Seq<Seq<u8>>, a: Seq<u8>, bump: u8)
    requires
        spec_find_bump(program_id, seeds, 255) == Some((a, bump)),
    ensures
        pda_address(seeds.push(seq![bump]), program_id) == Some(a),
{
    lemma_find_bump_from(program_id, seeds, 255, a, bump);
}

proof fn lemma_find_bump_from(program_id: Seq<u8>, seeds: Seq<Seq<u8>>, from: int, a: Seq<u8>, bump: u8)
    requires
        spec_find_bump(program_id, seeds, from) == Some((a, bump)),
    ensures
        pda_address(seeds.push(seq![bump]), program_id) == Some(a),
    decreases from + 1,
{
    if from >= 0 {
        match pda_address(seeds.push(seq![from as u8]), program_id) {
            Some(_) => {},
            None => {
                lemma_find_bump_from(program_id, seeds, from - 1, a, bump);
            },
        }
    }
}

} // verus!
