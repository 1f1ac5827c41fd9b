//! The protocol's laws, proved over the specification-level transitions.
//!
//! Determinism of the address derivation itself is stated beside it, as
//! `pda::lemma_derive_record_address_deterministic`.

use vstd::prelude::*;
use crate::accounts::EscrowError;
use crate::accounts::TokenAccountV;
use crate::pda::canonical_bump;
use crate::pda::pda_findable;
use crate::pda::pda_max_at;
use crate::pda::record_seeds;
use crate::pda::vault_seeds;
use crate::protocol::CancelV;
use crate::protocol::ExchangeV;
use crate::protocol::InitializeV;
use crate::protocol::cancel_spec;
use crate::protocol::exchange_spec;
use crate::protocol::initialize_spec;

verus! {

/// Create followed immediately by Cancel returns exactly the deposited
/// `amount_a` of asset A to the maker's original funding account — its
/// balance is back to what it was before the Create — and leaves the record
/// and the vault nonexistent.
pub proof fn lemma_create_then_cancel(
    c: InitializeV,
    program_id: Seq<u8>,
    amount_a: u64,
    amount_b: u64,
)
    requires
        initialize_spec(c, program_id, amount_a, amount_b).1 is Ok,
    ensures
        ({
            let f = initialize_spec(c, program_id, amount_a, amount_b).0;
            let after = cancel_spec(
                CancelV {
                    escrow: f.escrow,
                    vault: f.vault,
                    authority: c.authority,
                    token_account_maker: f.token_account_maker,
                },
                program_id,
            );
            &&& after.1 is Ok
            &&& after.0.escrow is None
            &&& after.0.vault is None
            &&& after.0.token_account_maker.address == c.token_account_maker.address
            &&& after.0.token_account_maker.amount == c.token_account_maker.amount
        }),
{
    let rseeds = record_seeds(amount_a, amount_b, c.authority);
    assert(pda_findable(rseeds, program_id));
    let rb = canonical_bump(rseeds, program_id);
    assert(pda_max_at(rseeds, program_id, rb));
    let f = initialize_spec(c, program_id, amount_a, amount_b).0;
    let vseeds = vault_seeds(f.vault->Some_0.owner);
    assert(pda_findable(vseeds, program_id));
    let vb = canonical_bump(vseeds, program_id);
    assert(pda_max_at(vseeds, program_id, vb));
}

/// Create followed by Settle leaves the maker holding exactly `amount_b`
/// more of asset B, the taker exactly `amount_a` more of asset A and
/// `amount_b` less of asset B, with the record and the vault nonexistent.
pub proof fn lemma_create_then_settle(
    c: InitializeV,
    program_id: Seq<u8>,
    amount_a: u64,
    amount_b: u64,
    taker: Seq<u8>,
    token_account_maker_b: TokenAccountV,
    token_account_taker_a: TokenAccountV,
    token_account_taker_b: TokenAccountV,
)
    requires
        initialize_spec(c, program_id, amount_a, amount_b).1 is Ok,
        token_account_maker_b.owner == c.authority,
        token_account_maker_b.mint == c.mint_token_taker,
        token_account_taker_a.mint == c.mint_token_maker,
        token_account_taker_b.mint == c.mint_token_taker,
        token_account_taker_b.owner == taker,
        token_account_taker_b.amount >= amount_b,
        token_account_maker_b.amount + amount_b <= u64::MAX,
        token_account_taker_a.amount + amount_a <= u64::MAX,
    ensures
        ({
            let f = initialize_spec(c, program_id, amount_a, amount_b).0;
            let after = exchange_spec(
                ExchangeV {
                    escrow: f.escrow,
                    vault: f.vault,
                    authority: taker,
                    maker: c.authority,
                    token_account_maker_b,
                    token_account_taker_a,
                    token_account_taker_b,
                    taker_mint: c.mint_token_taker,
                },
                program_id,
            );
            &&& after.1 is Ok
            &&& after.0.escrow is None
            &&& after.0.vault is None
            &&& after.0.token_account_maker_b.amount == token_account_maker_b.amount + amount_b
            &&& after.0.token_account_taker_a.amount == token_account_taker_a.amount + amount_a
            &&& after.0.token_account_taker_b.amount == token_account_taker_b.amount - amount_b
        }),
{
    let rseeds = record_seeds(amount_a, amount_b, c.authority);
    assert(pda_findable(rseeds, program_id));
    let rb = canonical_bump(rseeds, program_id);
    assert(pda_max_at(rseeds, program_id, rb));
    let f = initialize_spec(c, program_id, amount_a, amount_b).0;
    let vseeds = vault_seeds(f.vault->Some_0.owner);
    assert(pda_findable(vseeds, program_id));
    let vb = canonical_bump(vseeds, program_id);
    assert(pda_max_at(vseeds, program_id, vb));
}

/// After a successful Cancel, a second Cancel or a Settle against what it
/// left behind fails with `NotFound` and changes nothing: the terminal
/// transitions are mutually exclusive and cannot replay.
pub proof fn lemma_after_cancel_not_found(
    c1: CancelV,
    program_id: Seq<u8>,
    c2: CancelV,
    x2: ExchangeV,
)
    requires
        cancel_spec(c1, program_id).1 is Ok,
        c2.escrow == cancel_spec(c1, program_id).0.escrow,
        c2.vault == cancel_spec(c1, program_id).0.vault,
        x2.escrow == cancel_spec(c1, program_id).0.escrow,
        x2.vault == cancel_spec(c1, program_id).0.vault,
    ensures
        cancel_spec(c2, program_id).0 == c2,
        cancel_spec(c2, program_id).1 == Err::<(), EscrowError>(EscrowError::NotFound),
        exchange_spec(x2, program_id).0 == x2,
        exchange_spec(x2, program_id).1 == Err::<(), EscrowError>(EscrowError::NotFound),
{
}

/// After a successful Settle, a second Settle or a Cancel against what it
/// left behind fails with `NotFound` and changes nothing.
pub proof fn lemma_after_settle_not_found(
    x1: ExchangeV,
    program_id: Seq<u8>,
    c2: CancelV,
    x2: ExchangeV,
)
    requires
        exchange_spec(x1, program_id).1 is Ok,
        c2.escrow == exchange_spec(x1, program_id).0.escrow,
        c2.vault == exchange_spec(x1, program_id).0.vault,
        x2.escrow == exchange_spec(x1, program_id).0.escrow,
        x2.vault == exchange_spec(x1, program_id).0.vault,
    ensures
        cancel_spec(c2, program_id).0 == c2,
        cancel_spec(c2, program_id).1 == Err::<(), EscrowError>(EscrowError::NotFound),
        exchange_spec(x2, program_id).0 == x2,
        exchange_spec(x2, program_id).1 == Err::<(), EscrowError>(EscrowError::NotFound),
{
}

/// The record and the vault are created together and destroyed together:
/// every transition preserves their pairing, so neither outlives the other.
pub proof fn lemma_record_and_vault_paired(
    c: InitializeV,
    k: CancelV,
    x: ExchangeV,
    program_id: Seq<u8>,
    amount_a: u64,
    amount_b: u64,
)
    requires
        c.escrow is Some <==> c.vault is Some,
        k.escrow is Some <==> k.vault is Some,
        x.escrow is Some <==> x.vault is Some,
    ensures
        ({
            let f = initialize_spec(c, program_id, amount_a, amount_b).0;
            f.escrow is Some <==> f.vault is Some
        }),
        ({
            let f = cancel_spec(k, program_id).0;
            f.escrow is Some <==> f.vault is Some
        }),
        ({
            let f = exchange_spec(x, program_id).0;
            f.escrow is Some <==> f.vault is Some
        }),
{
}

/// Cancel called by any identity other than the record's maker fails with
/// `Unauthorized` and produces no change at all.
pub proof fn lemma_cancel_unauthorized(c: CancelV, program_id: Seq<u8>)
    requires
        c.escrow is Some,
        c.vault is Some,
        c.authority != c.escrow->Some_0.authority,
    ensures
        cancel_spec(c, program_id).0 == c,
        cancel_spec(c, program_id).1 == Err::<(), EscrowError>(EscrowError::Unauthorized),
{
}

/// Settle with a maker-destination account not owned by the record's
/// authority fails with `MakerAccountMismatch` before any transfer occurs.
pub proof fn lemma_settle_maker_account_mismatch(x: ExchangeV, program_id: Seq<u8>)
    requires
        x.escrow is Some,
        x.vault is Some,
        x.token_account_maker_b.owner != x.escrow->Some_0.authority,
    ensures
        exchange_spec(x, program_id).0 == x,
        exchange_spec(x, program_id).1 == Err::<(), EscrowError>(EscrowError::MakerAccountMismatch),
{
}

} // verus!
