//! Deterministic address derivation for the escrow record and its vault.
//!
//! The record's address is derived from the trade's own terms — the two
//! amounts and the maker's identity — under a fixed domain tag; the vault's
//! address is derived from the record's address under a second tag. The
//! derivation itself is the ledger's program-derived-address scheme
//! (`solana-program`): a hash of the seeds plus a one-byte collision-avoiding
//! bump, searched downward from 255.

use vstd::prelude::*;
use crate::bytes::clone_bytes;
use crate::bytes::u64_le_bytes;
use crate::bytes::u64_le_seq;

verus! {

/// What `Pubkey::create_program_address` returns for the given seeds extended
/// with the one-byte bump seed: `Some(address)` on success, `None` where the
/// derivation fails (the hash lands on the curve, or a seed is over-long).
pub uninterp spec fn pda(seeds: Seq<Seq<u8>>, program_id: Seq<u8>, bump: u8) -> Option<Seq<u8>>;

/// `b` is a bump at which the derivation succeeds while every larger bump
/// fails: exactly the bump that the downward search returns.
pub open spec fn pda_max_at(seeds: Seq<Seq<u8>>, program_id: Seq<u8>, b: u8) -> bool {
    &&& 1 <= b
    &&& pda(seeds, program_id, b) is Some
    &&& forall|b2: u8| b2 > b ==> pda(seeds, program_id, b2) is None
}

/// Some bump in the search range yields a valid derived address.
pub open spec fn pda_findable(seeds: Seq<Seq<u8>>, program_id: Seq<u8>) -> bool {
    exists|b: u8| pda_max_at(seeds, program_id, b)
}

/// The bump that the search returns (meaningful only where `pda_findable`).
pub open spec fn canonical_bump(seeds: Seq<Seq<u8>>, program_id: Seq<u8>) -> u8 {
    choose|b: u8| pda_max_at(seeds, program_id, b)
}

/// The address that the search returns (meaningful only where `pda_findable`).
pub open spec fn derived_address(seeds: Seq<Seq<u8>>, program_id: Seq<u8>) -> Seq<u8> {
    pda(seeds, program_id, canonical_bump(seeds, program_id))->Some_0
}

/// Relies on `Pubkey::create_program_address` of `solana-program`: a pure
/// hash of the seeds, the appended one-byte bump seed and the program id;
/// it errs exactly where the hash lands on the ed25519 curve or a seed is
/// over-long, and the result depends on the arguments alone.
#[verifier::external_body]
fn pda_create(seeds: &Vec<Vec<u8>>, bump: u8, program_id: &Vec<u8>) -> (r: Option<Vec<u8>>)
    requires
        program_id@.len() == 32,
    ensures
        r is Some <==> pda(seeds.deep_view(), program_id@, bump) is Some,
        r matches Some(a) ==> pda(seeds.deep_view(), program_id@, bump) == Some(a@) && a@.len() == 32,
{
    let pid = solana_program::pubkey::Pubkey::try_from(program_id.as_slice()).unwrap();
    let mut refs: Vec<&[u8]> = seeds.iter().map(|s| s.as_slice()).collect();
    let bump_seed = [bump];
    refs.push(&bump_seed);
    solana_program::pubkey::Pubkey::create_program_address(&refs, &pid)
        .ok()
        .map(|a| a.to_bytes().to_vec())
}

/// Relies on `Pubkey::try_find_program_address` of `solana-program`: it tries
/// bumps from 255 down to 1 and returns the first, hence largest, at which
/// `create_program_address` succeeds, or `None` where none succeeds.
#[verifier::external_body]
fn pda_find(seeds: &Vec<Vec<u8>>, program_id: &Vec<u8>) -> (r: Option<(Vec<u8>, u8)>)
    requires
        program_id@.len() == 32,
    ensures
        r is Some <==> pda_findable(seeds.deep_view(), program_id@),
        r matches Some(ab) ==> pda_max_at(seeds.deep_view(), program_id@, ab.1)
            && pda(seeds.deep_view(), program_id@, ab.1) == Some(ab.0@)
            && ab.0@.len() == 32,
{
    let pid = solana_program::pubkey::Pubkey::try_from(program_id.as_slice()).unwrap();
    let refs: Vec<&[u8]> = seeds.iter().map(|s| s.as_slice()).collect();
    solana_program::pubkey::Pubkey::try_find_program_address(&refs, &pid)
        .map(|(a, b)| (a.to_bytes().to_vec(), b))
}

/// Domain tag of the escrow record's address ("escrow").
pub open spec fn record_tag() -> Seq<u8> {
    seq![101u8, 115u8, 99u8, 114u8, 111u8, 119u8]
}

/// Domain tag of the custody vault's address ("vault").
pub open spec fn vault_tag() -> Seq<u8> {
    seq![118u8, 97u8, 117u8, 108u8, 116u8]
}

/// The record's derivation seeds: tag, the two amounts little-endian, and the
/// maker's identity. Two trades with identical terms by the same maker thus
/// collide at one address by design.
pub open spec fn record_seeds(amount_a: u64, amount_b: u64, authority: Seq<u8>) -> Seq<Seq<u8>> {
    seq![record_tag(), u64_le_seq(amount_a), u64_le_seq(amount_b), authority]
}

/// The vault's derivation seeds: tag and the record's address, chaining the
/// vault to its record.
pub open spec fn vault_seeds(record_address: Seq<u8>) -> Seq<Seq<u8>> {
    seq![vault_tag(), record_address]
}

fn record_seed_vecs(amount_a: u64, amount_b: u64, authority: &Vec<u8>) -> (r: Vec<Vec<u8>>)
    ensures
        r.deep_view() == record_seeds(amount_a, amount_b, authority@),
{
    let mut tag: Vec<u8> = Vec::new();
    tag.push(101);
    tag.push(115);
    tag.push(99);
    tag.push(114);
    tag.push(111);
    tag.push(119);
    proof {
        assert(tag@ =~= record_tag());
    }
    let mut r: Vec<Vec<u8>> = Vec::new();
    r.push(tag);
    r.push(u64_le_bytes(amount_a));
    r.push(u64_le_bytes(amount_b));
    r.push(clone_bytes(authority));
    proof {
        assert(r.deep_view() =~~= record_seeds(amount_a, amount_b, authority@));
    }
    r
}

fn vault_seed_vecs(record_address: &Vec<u8>) -> (r: Vec<Vec<u8>>)
    ensures
        r.deep_view() == vault_seeds(record_address@),
{
    let mut tag: Vec<u8> = Vec::new();
    tag.push(118);
    tag.push(97);
    tag.push(117);
    tag.push(108);
    tag.push(116);
    proof {
        assert(tag@ =~= vault_tag());
    }
    let mut r: Vec<Vec<u8>> = Vec::new();
    r.push(tag);
    r.push(clone_bytes(record_address));
    proof {
        assert(r.deep_view() =~~= vault_seeds(record_address@));
    }
    r
}

/// The search's result is pinned: a bump at which the derivation succeeds
/// while all larger bumps fail is the canonical one, and its address the
/// derived address.
pub proof fn lemma_max_at_canonical(seeds: Seq<Seq<u8>>, program_id: Seq<u8>, a: Seq<u8>, b: u8)
    requires
        pda_max_at(seeds, program_id, b),
        pda(seeds, program_id, b) == Some(a),
    ensures
        pda_findable(seeds, program_id),
        canonical_bump(seeds, program_id) == b,
        derived_address(seeds, program_id) == a,
{
    assert(pda_findable(seeds, program_id));
    let cb = canonical_bump(seeds, program_id);
    assert(pda_max_at(seeds, program_id, cb));
    if cb < b {
        assert(pda(seeds, program_id, b) is None);
    }
    if cb > b {
        assert(pda(seeds, program_id, cb) is None);
    }
}

/// The derivation is a pure deterministic function of its inputs: any two
/// outcomes of the bump search over the same record seeds agree in both the
/// address and the bump.
pub proof fn lemma_derive_record_address_deterministic(
    amount_a: u64,
    amount_b: u64,
    authority: Seq<u8>,
    program_id: Seq<u8>,
    a1: Seq<u8>,
    b1: u8,
    a2: Seq<u8>,
    b2: u8,
)
    requires
        pda_max_at(record_seeds(amount_a, amount_b, authority), program_id, b1),
        pda(record_seeds(amount_a, amount_b, authority), program_id, b1) == Some(a1),
        pda_max_at(record_seeds(amount_a, amount_b, authority), program_id, b2),
        pda(record_seeds(amount_a, amount_b, authority), program_id, b2) == Some(a2),
    ensures
        a1 == a2,
        b1 == b2,
{
    lemma_max_at_canonical(record_seeds(amount_a, amount_b, authority), program_id, a1, b1);
    lemma_max_at_canonical(record_seeds(amount_a, amount_b, authority), program_id, a2, b2);
}

/// Derive the escrow record's address and its bump from the trade's terms.
/// Same inputs always yield the same `(address, proof)` pair.
pub fn derive_record_address(
    amount_a: u64,
    amount_b: u64,
    authority: &Vec<u8>,
    program_id: &Vec<u8>,
) -> (r: Option<(Vec<u8>, u8)>)
    requires
        program_id@.len() == 32,
    ensures
        r is Some <==> pda_findable(record_seeds(amount_a, amount_b, authority@), program_id@),
        r matches Some(ab) ==> {
            &&& ab.0@ == derived_address(record_seeds(amount_a, amount_b, authority@), program_id@)
            &&& ab.1 == canonical_bump(record_seeds(amount_a, amount_b, authority@), program_id@)
            &&& pda_max_at(record_seeds(amount_a, amount_b, authority@), program_id@, ab.1)
            &&& ab.0@.len() == 32
        },
{
    let seeds = record_seed_vecs(amount_a, amount_b, authority);
    let r = pda_find(&seeds, program_id);
    proof {
        if r is Some {
            lemma_max_at_canonical(
                record_seeds(amount_a, amount_b, authority@),
                program_id@,
                r->Some_0.0@,
                r->Some_0.1,
            );
        }
    }
    r
}

/// Derive the vault's address and its bump from the record's address.
pub fn derive_vault_address(record_address: &Vec<u8>, program_id: &Vec<u8>) -> (r: Option<(
    Vec<u8>,
    u8,
)>)
    requires
        program_id@.len() == 32,
    ensures
        r is Some <==> pda_findable(vault_seeds(record_address@), program_id@),
        r matches Some(ab) ==> {
            &&& ab.0@ == derived_address(vault_seeds(record_address@), program_id@)
            &&& ab.1 == canonical_bump(vault_seeds(record_address@), program_id@)
            &&& pda_max_at(vault_seeds(record_address@), program_id@, ab.1)
            &&& ab.0@.len() == 32
        },
{
    let seeds = vault_seed_vecs(record_address);
    let r = pda_find(&seeds, program_id);
    proof {
        if r is Some {
            lemma_max_at_canonical(
                vault_seeds(record_address@),
                program_id@,
                r->Some_0.0@,
                r->Some_0.1,
            );
        }
    }
    r
}

/// Re-derive the record's address from its stored terms and stored bump, as
/// Cancel and Settle do to authenticate the record as the vault's signer.
pub fn record_address_with_bump(
    amount_a: u64,
    amount_b: u64,
    authority: &Vec<u8>,
    bump: u8,
    program_id: &Vec<u8>,
) -> (r: Option<Vec<u8>>)
    requires
        program_id@.len() == 32,
    ensures
        r is Some <==> pda(record_seeds(amount_a, amount_b, authority@), program_id@, bump)
            is Some,
        r matches Some(a) ==> pda(record_seeds(amount_a, amount_b, authority@), program_id@, bump)
            == Some(a@) && a@.len() == 32,
{
    let seeds = record_seed_vecs(amount_a, amount_b, authority);
    pda_create(&seeds, bump, program_id)
}

/// Re-derive the vault's address from the record's address and stored bump.
pub fn vault_address_with_bump(record_address: &Vec<u8>, bump: u8, program_id: &Vec<u8>) -> (r:
    Option<Vec<u8>>)
    requires
        program_id@.len() == 32,
    ensures
        r is Some <==> pda(vault_seeds(record_address@), program_id@, bump) is Some,
        r matches Some(a) ==> pda(vault_seeds(record_address@), program_id@, bump) == Some(a@)
            && a@.len() == 32,
{
    let seeds = vault_seed_vecs(record_address);
    pda_create(&seeds, bump, program_id)
}

} // verus!
