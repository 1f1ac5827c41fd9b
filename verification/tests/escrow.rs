use escrow_v2::accounts::{EscrowError, LedgerError, TokenAccount};
use escrow_v2::bytes::u64_le_bytes;
use escrow_v2::pda::{derive_record_address, derive_vault_address, record_address_with_bump};
use escrow_v2::protocol::{cancel, exchange, initialize, Cancel, Exchange, Initialize};

fn key(b: u8) -> Vec<u8> {
    vec![b; 32]
}

fn program_id() -> Vec<u8> {
    vec![7u8; 32]
}

const MAKER: u8 = 1;
const TAKER: u8 = 2;
const MINT_X: u8 = 3;
const MINT_Y: u8 = 4;

fn token_account(address: u8, mint: u8, owner: u8, amount: u64) -> TokenAccount {
    TokenAccount {
        address: key(address),
        mint: key(mint),
        owner: key(owner),
        amount,
    }
}

fn fresh_initialize(funding_amount: u64) -> Initialize {
    Initialize {
        escrow: None,
        vault: None,
        authority: key(MAKER),
        token_account_maker: token_account(0x10, MINT_X, MAKER, funding_amount),
        mint_token_maker: key(MINT_X),
        mint_token_taker: key(MINT_Y),
    }
}

fn created(amount_a: u64, amount_b: u64, funding_amount: u64) -> Initialize {
    let mut ctx = fresh_initialize(funding_amount);
    let r = initialize(&mut ctx, &program_id(), amount_a, amount_b);
    assert_eq!(r, Ok(()));
    ctx
}

#[test]
fn derive_record_address_is_deterministic() {
    let pid = program_id();
    let first = derive_record_address(1000, 500, &key(MAKER), &pid).unwrap();
    let second = derive_record_address(1000, 500, &key(MAKER), &pid).unwrap();
    assert_eq!(first, second);
    assert_eq!(first.0.len(), 32);
    let other_amount = derive_record_address(1001, 500, &key(MAKER), &pid).unwrap();
    assert_ne!(first.0, other_amount.0);
    let other_maker = derive_record_address(1000, 500, &key(TAKER), &pid).unwrap();
    assert_ne!(first.0, other_maker.0);
}

#[test]
fn derived_addresses_are_not_the_inputs() {
    let pid = program_id();
    let (record, bump) = derive_record_address(1000, 500, &key(MAKER), &pid).unwrap();
    assert_ne!(record, key(MAKER));
    assert_ne!(record, pid);
    let (vault, _) = derive_vault_address(&record, &pid).unwrap();
    assert_ne!(vault, record);
    // The stored bump re-derives the identical address; a different bump
    // never re-derives it.
    assert_eq!(
        record_address_with_bump(1000, 500, &key(MAKER), bump, &pid),
        Some(record.clone())
    );
    if let Some(other) = record_address_with_bump(1000, 500, &key(MAKER), bump.wrapping_sub(1), &pid)
    {
        assert_ne!(other, record);
    }
}

#[test]
fn u64_le_bytes_exact() {
    assert_eq!(
        u64_le_bytes(0x0102030405060708),
        vec![8, 7, 6, 5, 4, 3, 2, 1]
    );
    assert_eq!(u64_le_bytes(0), vec![0; 8]);
    assert_eq!(u64_le_bytes(u64::MAX), vec![0xff; 8]);
}

#[test]
fn create_populates_record_and_vault() {
    let ctx = created(1000, 500, 1500);
    let record = ctx.escrow.expect("record allocated");
    let vault = ctx.vault.expect("vault allocated");
    assert_eq!(record.authority, key(MAKER));
    assert_eq!(record.mint_token_maker, key(MINT_X));
    assert_eq!(record.mint_token_taker, key(MINT_Y));
    assert_eq!(record.amount_a, 1000);
    assert_eq!(record.amount_b, 500);
    // The vault holds the deposit, typed to asset A, and its spending
    // authority is the record's derived address, never the maker.
    assert_eq!(vault.amount, 1000);
    assert_eq!(vault.mint, key(MINT_X));
    let pid = program_id();
    let (record_address, record_bump) = derive_record_address(1000, 500, &key(MAKER), &pid).unwrap();
    let (vault_address, vault_bump) = derive_vault_address(&record_address, &pid).unwrap();
    assert_eq!(vault.owner, record_address);
    assert_eq!(vault.address, vault_address);
    assert_eq!(record.escrow_bump, record_bump);
    assert_eq!(record.vault_bump, vault_bump);
    assert_ne!(vault.owner, key(MAKER));
    // The funding account was debited by exactly the deposit.
    assert_eq!(ctx.token_account_maker.amount, 500);
}

#[test]
fn create_then_cancel_refunds_maker() {
    // Maker creates the trade, then cancels before any taker acts: net zero.
    let ctx = created(1000, 500, 1500);
    let mut cancel_ctx = Cancel {
        escrow: ctx.escrow,
        vault: ctx.vault,
        authority: key(MAKER),
        token_account_maker: ctx.token_account_maker,
    };
    let r = cancel(&mut cancel_ctx, &program_id());
    assert_eq!(r, Ok(()));
    assert!(cancel_ctx.escrow.is_none());
    assert!(cancel_ctx.vault.is_none());
    assert_eq!(cancel_ctx.token_account_maker.amount, 1500);
}

fn settle_ctx_from(ctx: Initialize, taker_b_amount: u64) -> Exchange {
    Exchange {
        escrow: ctx.escrow,
        vault: ctx.vault,
        authority: key(TAKER),
        maker: key(MAKER),
        token_account_maker_b: token_account(0x20, MINT_Y, MAKER, 0),
        token_account_taker_a: token_account(0x21, MINT_X, TAKER, 0),
        token_account_taker_b: token_account(0x22, MINT_Y, TAKER, taker_b_amount),
        taker_mint: key(MINT_Y),
    }
}

#[test]
fn create_then_settle_moves_both_assets() {
    // Maker deposits 1000 of asset X and wants 500 of asset Y; a taker with
    // 500 Y settles. Maker: -1000 X, +500 Y. Taker: +1000 X, -500 Y.
    let ctx = created(1000, 500, 1000);
    assert_eq!(ctx.token_account_maker.amount, 0);
    let mut x = settle_ctx_from(ctx, 500);
    let r = exchange(&mut x, &program_id());
    assert_eq!(r, Ok(()));
    assert!(x.escrow.is_none());
    assert!(x.vault.is_none());
    assert_eq!(x.token_account_maker_b.amount, 500);
    assert_eq!(x.token_account_taker_a.amount, 1000);
    assert_eq!(x.token_account_taker_b.amount, 0);
}

#[test]
fn second_finalization_fails_not_found() {
    // Cancel, then Cancel again and Settle: both see no record.
    let ctx = created(1000, 500, 1500);
    let mut c = Cancel {
        escrow: ctx.escrow,
        vault: ctx.vault,
        authority: key(MAKER),
        token_account_maker: ctx.token_account_maker,
    };
    assert_eq!(cancel(&mut c, &program_id()), Ok(()));
    let refunded = c.token_account_maker.amount;
    assert_eq!(cancel(&mut c, &program_id()), Err(EscrowError::NotFound));
    assert_eq!(c.token_account_maker.amount, refunded);
    let mut x = Exchange {
        escrow: None,
        vault: None,
        authority: key(TAKER),
        maker: key(MAKER),
        token_account_maker_b: token_account(0x20, MINT_Y, MAKER, 0),
        token_account_taker_a: token_account(0x21, MINT_X, TAKER, 0),
        token_account_taker_b: token_account(0x22, MINT_Y, TAKER, 500),
        taker_mint: key(MINT_Y),
    };
    assert_eq!(exchange(&mut x, &program_id()), Err(EscrowError::NotFound));

    // Settle, then Settle again.
    let ctx = created(1000, 500, 1000);
    let mut x = settle_ctx_from(ctx, 500);
    assert_eq!(exchange(&mut x, &program_id()), Ok(()));
    let mut again = settle_ctx_from(
        Initialize {
            escrow: x.escrow,
            vault: x.vault,
            authority: key(MAKER),
            token_account_maker: token_account(0x10, MINT_X, MAKER, 0),
            mint_token_maker: key(MINT_X),
            mint_token_taker: key(MINT_Y),
        },
        500,
    );
    assert_eq!(exchange(&mut again, &program_id()), Err(EscrowError::NotFound));
}

#[test]
fn cancel_by_other_identity_unauthorized() {
    let ctx = created(1000, 500, 1500);
    let mut c = Cancel {
        escrow: ctx.escrow,
        vault: ctx.vault,
        authority: key(TAKER),
        token_account_maker: ctx.token_account_maker,
    };
    let r = cancel(&mut c, &program_id());
    assert_eq!(r, Err(EscrowError::Unauthorized));
    // No balance change, and the record and vault still stand.
    assert_eq!(c.token_account_maker.amount, 500);
    assert!(c.escrow.is_some());
    assert_eq!(c.vault.as_ref().unwrap().amount, 1000);
}

#[test]
fn settle_wrong_maker_destination_owner() {
    let ctx = created(1000, 500, 1000);
    let mut x = settle_ctx_from(ctx, 500);
    x.token_account_maker_b.owner = key(TAKER);
    let r = exchange(&mut x, &program_id());
    assert_eq!(r, Err(EscrowError::MakerAccountMismatch));
    // No transfer occurred.
    assert_eq!(x.token_account_maker_b.amount, 0);
    assert_eq!(x.token_account_taker_b.amount, 500);
    assert!(x.escrow.is_some());
}

#[test]
fn create_on_occupied_address_already_exists() {
    let first = created(1000, 500, 1500);
    let mut again = fresh_initialize(1500);
    again.escrow = first.escrow;
    again.vault = first.vault;
    let r = initialize(&mut again, &program_id(), 1000, 500);
    assert_eq!(r, Err(EscrowError::AlreadyExists));
    assert_eq!(again.token_account_maker.amount, 1500);
}

#[test]
fn create_mint_mismatch() {
    let mut ctx = fresh_initialize(1500);
    ctx.token_account_maker.mint = key(MINT_Y);
    let r = initialize(&mut ctx, &program_id(), 1000, 500);
    assert_eq!(r, Err(EscrowError::MintMismatch));
    assert!(ctx.escrow.is_none());
}

#[test]
fn create_funding_not_owned_by_maker() {
    let mut ctx = fresh_initialize(1500);
    ctx.token_account_maker.owner = key(TAKER);
    let r = initialize(&mut ctx, &program_id(), 1000, 500);
    assert_eq!(r, Err(EscrowError::Unauthorized));
}

#[test]
fn create_insufficient_funding() {
    let mut ctx = fresh_initialize(999);
    let r = initialize(&mut ctx, &program_id(), 1000, 500);
    assert_eq!(r, Err(EscrowError::Ledger(LedgerError::InsufficientFunds)));
    assert_eq!(ctx.token_account_maker.amount, 999);
}

#[test]
fn cancel_refund_destination_mint_mismatch() {
    let ctx = created(1000, 500, 1500);
    let mut c = Cancel {
        escrow: ctx.escrow,
        vault: ctx.vault,
        authority: key(MAKER),
        token_account_maker: token_account(0x30, MINT_Y, MAKER, 0),
    };
    assert_eq!(cancel(&mut c, &program_id()), Err(EscrowError::MintMismatch));
}

#[test]
fn cancel_refund_overflow() {
    let ctx = created(1000, 500, 1500);
    let mut c = Cancel {
        escrow: ctx.escrow,
        vault: ctx.vault,
        authority: key(MAKER),
        token_account_maker: token_account(0x30, MINT_X, MAKER, u64::MAX),
    };
    assert_eq!(
        cancel(&mut c, &program_id()),
        Err(EscrowError::Ledger(LedgerError::BalanceOverflow))
    );
    assert_eq!(c.token_account_maker.amount, u64::MAX);
}

#[test]
fn settle_taker_mint_mismatch() {
    let ctx = created(1000, 500, 1000);
    let mut x = settle_ctx_from(ctx, 500);
    x.taker_mint = key(MINT_X);
    assert_eq!(exchange(&mut x, &program_id()), Err(EscrowError::MintMismatch));
}

#[test]
fn settle_taker_source_not_owned_by_caller() {
    let ctx = created(1000, 500, 1000);
    let mut x = settle_ctx_from(ctx, 500);
    x.token_account_taker_b.owner = key(MAKER);
    assert_eq!(exchange(&mut x, &program_id()), Err(EscrowError::Unauthorized));
}

#[test]
fn settle_insufficient_taker_balance() {
    let ctx = created(1000, 500, 1000);
    let mut x = settle_ctx_from(ctx, 499);
    assert_eq!(
        exchange(&mut x, &program_id()),
        Err(EscrowError::Ledger(LedgerError::InsufficientFunds))
    );
    assert_eq!(x.token_account_taker_b.amount, 499);
    assert!(x.escrow.is_some());
}

#[test]
fn tampered_vault_authority_fails_authentication() {
    // Substitute a vault whose recorded authority is not the re-derived
    // record address: the derived-signer reconstruction must refuse it.
    let ctx = created(1000, 500, 1500);
    let mut vault = ctx.vault.unwrap();
    vault.owner = key(9);
    let mut c = Cancel {
        escrow: ctx.escrow,
        vault: Some(vault),
        authority: key(MAKER),
        token_account_maker: ctx.token_account_maker,
    };
    assert_eq!(
        cancel(&mut c, &program_id()),
        Err(EscrowError::AuthenticationFailure)
    );

    // A record whose stored terms were tampered with re-derives a different
    // address than the vault's authority.
    let ctx = created(1000, 500, 1500);
    let mut record = ctx.escrow.unwrap();
    record.amount_a = 2000;
    let mut c = Cancel {
        escrow: Some(record),
        vault: ctx.vault,
        authority: key(MAKER),
        token_account_maker: ctx.token_account_maker,
    };
    assert_eq!(
        cancel(&mut c, &program_id()),
        Err(EscrowError::AuthenticationFailure)
    );
}

#[test]
fn record_layout_round_trip() {
    let ctx = created(1000, 500, 1500);
    let record = ctx.escrow.unwrap();
    let bytes = escrow_v2::codec::encode_record(&record);
    assert_eq!(bytes.len(), escrow_v2::codec::RECORD_LEN);
    // Field placement: authority first, amounts little-endian at their
    // fixed offsets, bumps last.
    assert_eq!(&bytes[0..32], key(MAKER).as_slice());
    assert_eq!(&bytes[32..64], key(MINT_X).as_slice());
    assert_eq!(&bytes[64..96], key(MINT_Y).as_slice());
    assert_eq!(&bytes[96..104], &[0xe8, 0x03, 0, 0, 0, 0, 0, 0]);
    assert_eq!(&bytes[104..112], &[0xf4, 0x01, 0, 0, 0, 0, 0, 0]);
    assert_eq!(bytes[112], record.escrow_bump);
    assert_eq!(bytes[113], record.vault_bump);
    let back = escrow_v2::codec::decode_record(&bytes);
    assert_eq!(back, Some(record));
}

#[test]
fn record_layout_wrong_length_rejected() {
    assert_eq!(escrow_v2::codec::decode_record(&vec![0u8; 113]), None);
    assert_eq!(escrow_v2::codec::decode_record(&vec![0u8; 115]), None);
    assert_eq!(escrow_v2::codec::decode_record(&Vec::new()), None);
}
