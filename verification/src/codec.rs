//! The persisted layout of an escrow record: `authority` (32 bytes),
//! `asset` mints (32 bytes each), the two amounts (8 bytes each,
//! little-endian), and the two derivation proofs (1 byte each), in order.
//! The host's fixed-size record-type tag precedes these bytes on the wire
//! and is the host's own concern.

use vstd::prelude::*;
use crate::accounts::Escrow;
use crate::accounts::EscrowV;
use crate::bytes::clone_bytes;
use crate::bytes::u64_le_bytes;
use crate::bytes::u64_le_seq;

verus! {

/// Total length of a serialized record.
pub const RECORD_LEN: usize = 114;

/// A record is well-formed where its three identity fields are 32-byte
/// addresses.
pub open spec fn record_wf(e: EscrowV) -> bool {
    &&& e.authority.len() == 32
    &&& e.mint_token_maker.len() == 32
    &&& e.mint_token_taker.len() == 32
}

/// The serialized bytes of a record.
pub open spec fn record_bytes(e: EscrowV) -> Seq<u8> {
    e.authority + e.mint_token_maker + e.mint_token_taker + u64_le_seq(e.amount_a) + u64_le_seq(
        e.amount_b,
    ) + seq![e.escrow_bump, e.vault_bump]
}

/// The `u64` whose little-endian bytes are `s`.
pub open spec fn u64_from_le_seq(s: Seq<u8>) -> u64 {
    (s[0] as u64) | ((s[1] as u64) << 8) | ((s[2] as u64) << 16) | ((s[3] as u64) << 24) | ((
    s[4] as u64) << 32) | ((s[5] as u64) << 40) | ((s[6] as u64) << 48) | ((s[7] as u64) << 56)
}

/// The record read back from serialized bytes (meaningful only at
/// `RECORD_LEN` bytes).
pub open spec fn decoded_record(b: Seq<u8>) -> EscrowV {
    EscrowV {
        authority: b.subrange(0, 32),
        mint_token_maker: b.subrange(32, 64),
        mint_token_taker: b.subrange(64, 96),
        amount_a: u64_from_le_seq(b.subrange(96, 104)),
        amount_b: u64_from_le_seq(b.subrange(104, 112)),
        escrow_bump: b[112],
        vault_bump: b[113],
    }
}

/// Serialize a record into its persisted layout.
pub fn encode_record(e: &Escrow) -> (r: Vec<u8>)
    ensures
        r@ == record_bytes(e@),
{
    let mut r = clone_bytes(&e.authority);
    let mut part = clone_bytes(&e.mint_token_maker);
    r.append(&mut part);
    let mut part = clone_bytes(&e.mint_token_taker);
    r.append(&mut part);
    let mut part = u64_le_bytes(e.amount_a);
    r.append(&mut part);
    let mut part = u64_le_bytes(e.amount_b);
    r.append(&mut part);
    r.push(e.escrow_bump);
    r.push(e.vault_bump);
    proof {
        assert(r@ =~= record_bytes(e@));
    }
    r
}

fn subvec(b: &Vec<u8>, start: usize, end: usize) -> (r: Vec<u8>)
    requires
        start <= end <= b@.len(),
    ensures
        r@ == b@.subrange(start as int, end as int),
{
    let mut r: Vec<u8> = Vec::new();
    let mut i: usize = start;
    while i < end
        invariant
            start <= i <= end <= b@.len(),
            r@ == b@.subrange(start as int, i as int),
        decreases end - i,
    {
        r.push(b[i]);
        i += 1;
        proof {
            assert(r@ =~= b@.subrange(start as int, i as int));
        }
    }
    r
}

fn u64_from_le_bytes(b: &Vec<u8>) -> (r: u64)
    requires
        b@.len() == 8,
    ensures
        r == u64_from_le_seq(b@),
{
    (b[0] as u64) | ((b[1] as u64) << 8) | ((b[2] as u64) << 16) | ((b[3] as u64) << 24) | ((
    b[4] as u64) << 32) | ((b[5] as u64) << 40) | ((b[6] as u64) << 48) | ((b[7] as u64) << 56)
}

/// Parse a persisted record. Exactly the byte strings of the fixed layout
/// length parse; what parses is the layout's field-wise reading.
pub fn decode_record(b: &Vec<u8>) -> (r: Option<Escrow>)
    ensures
        r is Some <==> b@.len() == RECORD_LEN,
        r matches Some(e) ==> e@ == decoded_record(b@),
{
    if b.len() != RECORD_LEN {
        return None;
    }
    let e = Escrow {
        authority: subvec(b, 0, 32),
        mint_token_maker: subvec(b, 32, 64),
        mint_token_taker: subvec(b, 64, 96),
        amount_a: u64_from_le_bytes(&subvec(b, 96, 104)),
        amount_b: u64_from_le_bytes(&subvec(b, 104, 112)),
        escrow_bump: b[112],
        vault_bump: b[113],
    };
    proof {
        assert(e@ =~~= decoded_record(b@));
    }
    Some(e)
}

/// Reading back the little-endian bytes of a `u64` yields the same `u64`.
pub proof fn lemma_u64_le_round_trip(x: u64)
    ensures
        u64_from_le_seq(u64_le_seq(x)) == x,
{
    let s = u64_le_seq(x);
    assert((((x & 0xff) as u8) as u64) | (((((x >> 8) & 0xff) as u8) as u64) << 8) | (((((x >> 16)
        & 0xff) as u8) as u64) << 16) | (((((x >> 24) & 0xff) as u8) as u64) << 24) | (((((x >> 32)
        & 0xff) as u8) as u64) << 32) | (((((x >> 40) & 0xff) as u8) as u64) << 40) | (((((x >> 48)
        & 0xff) as u8) as u64) << 48) | (((((x >> 56) & 0xff) as u8) as u64) << 56) == x)
        by (bit_vector);
    assert(u64_from_le_seq(s) == x);
}

/// Serialization round trip: a well-formed record, serialized and parsed,
/// is itself.
pub proof fn lemma_record_round_trip(e: EscrowV)
    requires
        record_wf(e),
    ensures
        record_bytes(e).len() == RECORD_LEN,
        decoded_record(record_bytes(e)) == e,
{
    let b = record_bytes(e);
    assert(b.subrange(0, 32) =~= e.authority);
    assert(b.subrange(32, 64) =~= e.mint_token_maker);
    assert(b.subrange(64, 96) =~= e.mint_token_taker);
    assert(b.subrange(96, 104) =~= u64_le_seq(e.amount_a));
    assert(b.subrange(104, 112) =~= u64_le_seq(e.amount_b));
    lemma_u64_le_round_trip(e.amount_a);
    lemma_u64_le_round_trip(e.amount_b);
    assert(decoded_record(record_bytes(e)) =~~= e);
}

} // verus!
