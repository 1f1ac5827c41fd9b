//! The escrow state machine: Create (`initialize`), Cancel (`cancel`) and
//! Settle (`exchange`).
//!
//! Each transition takes the accounts the caller presents, validates every
//! precondition before any effect, and then applies its balance moves and
//! closes atomically. Each is proved equal to a total specification-level
//! transition function over the accounts' mathematical values, so a refused
//! transition provably leaves every account unchanged.

use vstd::prelude::*;
use crate::accounts::Escrow;
use crate::accounts::EscrowError;
use crate::accounts::EscrowV;
use crate::accounts::LedgerError;
use crate::accounts::TokenAccount;
use crate::accounts::TokenAccountV;
use crate::bytes::bytes_eq;
use crate::bytes::clone_bytes;
use crate::pda::canonical_bump;
use crate::pda::derive_record_address;
use crate::pda::derive_vault_address;
use crate::pda::derived_address;
use crate::pda::pda;
use crate::pda::pda_findable;
use crate::pda::record_address_with_bump;
use crate::pda::record_seeds;
use crate::pda::vault_address_with_bump;
use crate::pda::vault_seeds;

verus! {

/// Accounts of a Create: the contents of the derived record and vault
/// addresses (vacant unless the same trade already exists), the maker's
/// identity, the maker's funding account, and the two asset types.
#[derive(Clone, Debug)]
pub struct Initialize {
    pub escrow: Option<Escrow>,
    pub vault: Option<TokenAccount>,
    pub authority: Vec<u8>,
    pub token_account_maker: TokenAccount,
    pub mint_token_maker: Vec<u8>,
    pub mint_token_taker: Vec<u8>,
}

/// Mathematical value of an [`Initialize`] context.
#[verifier::ext_equal]
pub ghost struct InitializeV {
    pub escrow: Option<EscrowV>,
    pub vault: Option<TokenAccountV>,
    pub authority: Seq<u8>,
    pub token_account_maker: TokenAccountV,
    pub mint_token_maker: Seq<u8>,
    pub mint_token_taker: Seq<u8>,
}

impl View for Initialize {
    type V = InitializeV;

    open spec fn view(&self) -> InitializeV {
        InitializeV {
            escrow: match self.escrow {
                Some(e) => Some(e@),
                None => None,
            },
            vault: match self.vault {
                Some(v) => Some(v@),
                None => None,
            },
            authority: self.authority@,
            token_account_maker: self.token_account_maker@,
            mint_token_maker: self.mint_token_maker@,
            mint_token_taker: self.mint_token_taker@,
        }
    }
}

/// Accounts of a Cancel: the record and vault found at their derived
/// addresses, the caller's identity, and the refund destination for asset A.
#[derive(Clone, Debug)]
pub struct Cancel {
    pub escrow: Option<Escrow>,
    pub vault: Option<TokenAccount>,
    pub authority: Vec<u8>,
    pub token_account_maker: TokenAccount,
}

/// Mathematical value of a [`Cancel`] context.
#[verifier::ext_equal]
pub ghost struct CancelV {
    pub escrow: Option<EscrowV>,
    pub vault: Option<TokenAccountV>,
    pub authority: Seq<u8>,
    pub token_account_maker: TokenAccountV,
}

impl View for Cancel {
    type V = CancelV;

    open spec fn view(&self) -> CancelV {
        CancelV {
            escrow: match self.escrow {
                Some(e) => Some(e@),
                None => None,
            },
            vault: match self.vault {
                Some(v) => Some(v@),
                None => None,
            },
            authority: self.authority@,
            token_account_maker: self.token_account_maker@,
        }
    }
}

/// Accounts of a Settle: the record and vault, the taker's identity (the
/// caller), the maker's identity, the maker's asset-B destination, the
/// taker's asset-A destination, the taker's asset-B source, and the asset-B
/// type.
#[derive(Clone, Debug)]
pub struct Exchange {
    pub escrow: Option<Escrow>,
    pub vault: Option<TokenAccount>,
    pub authority: Vec<u8>,
    pub maker: Vec<u8>,
    pub token_account_maker_b: TokenAccount,
    pub token_account_taker_a: TokenAccount,
    pub token_account_taker_b: TokenAccount,
    pub taker_mint: Vec<u8>,
}

/// Mathematical value of an [`Exchange`] context.
#[verifier::ext_equal]
pub ghost struct ExchangeV {
    pub escrow: Option<EscrowV>,
    pub vault: Option<TokenAccountV>,
    pub authority: Seq<u8>,
    pub maker: Seq<u8>,
    pub token_account_maker_b: TokenAccountV,
    pub token_account_taker_a: TokenAccountV,
    pub token_account_taker_b: TokenAccountV,
    pub taker_mint: Seq<u8>,
}

impl View for Exchange {
    type V = ExchangeV;

    open spec fn view(&self) -> ExchangeV {
        ExchangeV {
            escrow: match self.escrow {
                Some(e) => Some(e@),
                None => None,
            },
            vault: match self.vault {
                Some(v) => Some(v@),
                None => None,
            },
            authority: self.authority@,
            maker: self.maker@,
            token_account_maker_b: self.token_account_maker_b@,
            token_account_taker_a: self.token_account_taker_a@,
            token_account_taker_b: self.token_account_taker_b@,
            taker_mint: self.taker_mint@,
        }
    }
}

/// The Create transition over mathematical values: what `initialize` does,
/// for every input.
pub open spec fn initialize_spec(
    c: InitializeV,
    program_id: Seq<u8>,
    amount_a: u64,
    amount_b: u64,
) -> (InitializeV, Result<(), EscrowError>) {
    let rseeds = record_seeds(amount_a, amount_b, c.authority);
    if c.escrow is Some || c.vault is Some {
        (c, Err(EscrowError::AlreadyExists))
    } else if c.token_account_maker.mint != c.mint_token_maker {
        (c, Err(EscrowError::MintMismatch))
    } else if c.token_account_maker.owner != c.authority {
        (c, Err(EscrowError::Unauthorized))
    } else if !pda_findable(rseeds, program_id) {
        (c, Err(EscrowError::DerivationFailure))
    } else {
        let record_address = derived_address(rseeds, program_id);
        let record_bump = canonical_bump(rseeds, program_id);
        let vseeds = vault_seeds(record_address);
        if !pda_findable(vseeds, program_id) {
            (c, Err(EscrowError::DerivationFailure))
        } else if c.token_account_maker.amount < amount_a {
            (c, Err(EscrowError::Ledger(LedgerError::InsufficientFunds)))
        } else {
            (
                InitializeV {
                    escrow: Some(
                        EscrowV {
                            authority: c.authority,
                            mint_token_maker: c.mint_token_maker,
                            mint_token_taker: c.mint_token_taker,
                            amount_a,
                            amount_b,
                            escrow_bump: record_bump,
                            vault_bump: canonical_bump(vseeds, program_id),
                        },
                    ),
                    vault: Some(
                        TokenAccountV {
                            address: derived_address(vseeds, program_id),
                            mint: c.mint_token_maker,
                            owner: record_address,
                            amount: amount_a,
                        },
                    ),
                    authority: c.authority,
                    token_account_maker: TokenAccountV {
                        address: c.token_account_maker.address,
                        mint: c.token_account_maker.mint,
                        owner: c.token_account_maker.owner,
                        amount: (c.token_account_maker.amount - amount_a) as u64,
                    },
                    mint_token_maker: c.mint_token_maker,
                    mint_token_taker: c.mint_token_taker,
                },
                Ok(()),
            )
        }
    }
}

/// Create: allocate the record and the vault at their derived addresses and
/// move `amount_a` of asset A from the maker's funding account into the
/// vault, whose sole spending authority is the record.
pub fn initialize(
    ctx: &mut Initialize,
    program_id: &Vec<u8>,
    amount_a: u64,
    amount_b: u64,
) -> (r: Result<(), EscrowError>)
    requires
        program_id@.len() == 32,
        amount_a > 0,
        amount_b > 0,
    ensures
        (final(ctx)@, r) == initialize_spec(old(ctx)@, program_id@, amount_a, amount_b),
{
    if ctx.escrow.is_some() || ctx.vault.is_some() {
        return Err(EscrowError::AlreadyExists);
    }
    if !bytes_eq(&ctx.token_account_maker.mint, &ctx.mint_token_maker) {
        return Err(EscrowError::MintMismatch);
    }
    if !bytes_eq(&ctx.token_account_maker.owner, &ctx.authority) {
        return Err(EscrowError::Unauthorized);
    }
    let (record_address, record_bump) = match derive_record_address(
        amount_a,
        amount_b,
        &ctx.authority,
        program_id,
    ) {
        Some(ab) => ab,
        None => {
            return Err(EscrowError::DerivationFailure);
        },
    };
    let (vault_address, vault_bump) = match derive_vault_address(&record_address, program_id) {
        Some(ab) => ab,
        None => {
            return Err(EscrowError::DerivationFailure);
        },
    };
    if ctx.token_account_maker.amount < amount_a {
        return Err(EscrowError::Ledger(LedgerError::InsufficientFunds));
    }
    ctx.token_account_maker.amount = ctx.token_account_maker.amount - amount_a;
    ctx.escrow = Some(
        Escrow {
            authority: clone_bytes(&ctx.authority),
            mint_token_maker: clone_bytes(&ctx.mint_token_maker),
            mint_token_taker: clone_bytes(&ctx.mint_token_taker),
            amount_a,
            amount_b,
            escrow_bump: record_bump,
            vault_bump,
        },
    );
    ctx.vault = Some(
        TokenAccount {
            address: vault_address,
            mint: clone_bytes(&ctx.mint_token_maker),
            owner: record_address,
            amount: amount_a,
        },
    );
    proof {
        assert(ctx@ =~~= initialize_spec(old(ctx)@, program_id@, amount_a, amount_b).0);
    }
    Ok(())
}

/// The Cancel transition over mathematical values: what `cancel` does, for
/// every input.
pub open spec fn cancel_spec(c: CancelV, program_id: Seq<u8>) -> (CancelV, Result<
    (),
    EscrowError,
>) {
    if c.escrow is None || c.vault is None {
        (c, Err(EscrowError::NotFound))
    } else {
        let e = c.escrow->Some_0;
        let v = c.vault->Some_0;
        if c.authority != e.authority {
            (c, Err(EscrowError::Unauthorized))
        } else if c.token_account_maker.mint != e.mint_token_maker {
            (c, Err(EscrowError::MintMismatch))
        } else {
            let ra = pda(
                record_seeds(e.amount_a, e.amount_b, e.authority),
                program_id,
                e.escrow_bump,
            );
            if ra is None || v.owner != ra->Some_0 {
                (c, Err(EscrowError::AuthenticationFailure))
            } else {
                let va = pda(vault_seeds(ra->Some_0), program_id, e.vault_bump);
                if va is None || v.address != va->Some_0 {
                    (c, Err(EscrowError::AuthenticationFailure))
                } else if c.token_account_maker.amount + v.amount > u64::MAX {
                    (c, Err(EscrowError::Ledger(LedgerError::BalanceOverflow)))
                } else {
                    (
                        CancelV {
                            escrow: None,
                            vault: None,
                            authority: c.authority,
                            token_account_maker: TokenAccountV {
                                address: c.token_account_maker.address,
                                mint: c.token_account_maker.mint,
                                owner: c.token_account_maker.owner,
                                amount: (c.token_account_maker.amount + v.amount) as u64,
                            },
                        },
                        Ok(()),
                    )
                }
            }
        }
    }
}

/// Cancel: only the maker may call it. The record is authenticated as the
/// vault's signer by re-deriving both addresses from the stored terms and
/// stored bumps; then the vault's whole balance goes back to the refund
/// destination and both entities are destroyed.
pub fn cancel(ctx: &mut Cancel, program_id: &Vec<u8>) -> (r: Result<(), EscrowError>)
    requires
        program_id@.len() == 32,
    ensures
        (final(ctx)@, r) == cancel_spec(old(ctx)@, program_id@),
{
    if ctx.escrow.is_none() || ctx.vault.is_none() {
        return Err(EscrowError::NotFound);
    }
    let vault_amount: u64;
    {
        let e = ctx.escrow.as_ref().unwrap();
        let v = ctx.vault.as_ref().unwrap();
        if !bytes_eq(&ctx.authority, &e.authority) {
            return Err(EscrowError::Unauthorized);
        }
        if !bytes_eq(&ctx.token_account_maker.mint, &e.mint_token_maker) {
            return Err(EscrowError::MintMismatch);
        }
        let record_address = match record_address_with_bump(
            e.amount_a,
            e.amount_b,
            &e.authority,
            e.escrow_bump,
            program_id,
        ) {
            Some(a) => a,
            None => {
                return Err(EscrowError::AuthenticationFailure);
            },
        };
        if !bytes_eq(&v.owner, &record_address) {
            return Err(EscrowError::AuthenticationFailure);
        }
        let vault_address = match vault_address_with_bump(
            &record_address,
            e.vault_bump,
            program_id,
        ) {
            Some(a) => a,
            None => {
                return Err(EscrowError::AuthenticationFailure);
            },
        };
        if !bytes_eq(&v.address, &vault_address) {
            return Err(EscrowError::AuthenticationFailure);
        }
        if ctx.token_account_maker.amount > u64::MAX - v.amount {
            return Err(EscrowError::Ledger(LedgerError::BalanceOverflow));
        }
        vault_amount = v.amount;
    }
    ctx.token_account_maker.amount = ctx.token_account_maker.amount + vault_amount;
    ctx.escrow = None;
    ctx.vault = None;
    proof {
        assert(ctx@ =~~= cancel_spec(old(ctx)@, program_id@).0);
    }
    Ok(())
}

/// The Settle transition over mathematical values: what `exchange` does, for
/// every input.
pub open spec fn exchange_spec(c: ExchangeV, program_id: Seq<u8>) -> (ExchangeV, Result<
    (),
    EscrowError,
>) {
    if c.escrow is None || c.vault is None {
        (c, Err(EscrowError::NotFound))
    } else {
        let e = c.escrow->Some_0;
        let v = c.vault->Some_0;
        if c.maker != e.authority || c.token_account_maker_b.owner != e.authority {
            (c, Err(EscrowError::MakerAccountMismatch))
        } else if c.taker_mint != e.mint_token_taker || c.token_account_maker_b.mint
            != e.mint_token_taker || c.token_account_taker_a.mint != e.mint_token_maker
            || c.token_account_taker_b.mint != e.mint_token_taker {
            (c, Err(EscrowError::MintMismatch))
        } else if c.token_account_taker_b.owner != c.authority {
            (c, Err(EscrowError::Unauthorized))
        } else {
            let ra = pda(
                record_seeds(e.amount_a, e.amount_b, e.authority),
                program_id,
                e.escrow_bump,
            );
            if ra is None || v.owner != ra->Some_0 {
                (c, Err(EscrowError::AuthenticationFailure))
            } else {
                let va = pda(vault_seeds(ra->Some_0), program_id, e.vault_bump);
                if va is None || v.address != va->Some_0 {
                    (c, Err(EscrowError::AuthenticationFailure))
                } else if c.token_account_taker_b.amount < e.amount_b {
                    (c, Err(EscrowError::Ledger(LedgerError::InsufficientFunds)))
                } else if c.token_account_maker_b.amount + e.amount_b > u64::MAX {
                    (c, Err(EscrowError::Ledger(LedgerError::BalanceOverflow)))
                } else if c.token_account_taker_a.amount + v.amount > u64::MAX {
                    (c, Err(EscrowError::Ledger(LedgerError::BalanceOverflow)))
                } else {
                    (
                        ExchangeV {
                            escrow: None,
                            vault: None,
                            authority: c.authority,
                            maker: c.maker,
                            token_account_maker_b: TokenAccountV {
                                address: c.token_account_maker_b.address,
                                mint: c.token_account_maker_b.mint,
                                owner: c.token_account_maker_b.owner,
                                amount: (c.token_account_maker_b.amount + e.amount_b) as u64,
                            },
                            token_account_taker_a: TokenAccountV {
                                address: c.token_account_taker_a.address,
                                mint: c.token_account_taker_a.mint,
                                owner: c.token_account_taker_a.owner,
                                amount: (c.token_account_taker_a.amount + v.amount) as u64,
                            },
                            token_account_taker_b: TokenAccountV {
                                address: c.token_account_taker_b.address,
                                mint: c.token_account_taker_b.mint,
                                owner: c.token_account_taker_b.owner,
                                amount: (c.token_account_taker_b.amount - e.amount_b) as u64,
                            },
                            taker_mint: c.taker_mint,
                        },
                        Ok(()),
                    )
                }
            }
        }
    }
}

/// Settle: any taker may call it. After authenticating the record as the
/// vault's signer, `amount_b` of asset B moves from the taker's source to the
/// maker's destination, the vault's whole asset-A balance moves to the
/// taker's destination, and both entities are destroyed.
pub fn exchange(ctx: &mut Exchange, program_id: &Vec<u8>) -> (r: Result<(), EscrowError>)
    requires
        program_id@.len() == 32,
    ensures
        (final(ctx)@, r) == exchange_spec(old(ctx)@, program_id@),
{
    if ctx.escrow.is_none() || ctx.vault.is_none() {
        return Err(EscrowError::NotFound);
    }
    let vault_amount: u64;
    let trade_amount_b: u64;
    {
        let e = ctx.escrow.as_ref().unwrap();
        let v = ctx.vault.as_ref().unwrap();
        if !bytes_eq(&ctx.maker, &e.authority) || !bytes_eq(
            &ctx.token_account_maker_b.owner,
            &e.authority,
        ) {
            return Err(EscrowError::MakerAccountMismatch);
        }
        if !bytes_eq(&ctx.taker_mint, &e.mint_token_taker) || !bytes_eq(
            &ctx.token_account_maker_b.mint,
            &e.mint_token_taker,
        ) || !bytes_eq(&ctx.token_account_taker_a.mint, &e.mint_token_maker) || !bytes_eq(
            &ctx.token_account_taker_b.mint,
            &e.mint_token_taker,
        ) {
            return Err(EscrowError::MintMismatch);
        }
        if !bytes_eq(&ctx.token_account_taker_b.owner, &ctx.authority) {
            return Err(EscrowError::Unauthorized);
        }
        let record_address = match record_address_with_bump(
            e.amount_a,
            e.amount_b,
            &e.authority,
            e.escrow_bump,
            program_id,
        ) {
            Some(a) => a,
            None => {
                return Err(EscrowError::AuthenticationFailure);
            },
        };
        if !bytes_eq(&v.owner, &record_address) {
            return Err(EscrowError::AuthenticationFailure);
        }
        let vault_address = match vault_address_with_bump(
            &record_address,
            e.vault_bump,
            program_id,
        ) {
            Some(a) => a,
            None => {
                return Err(EscrowError::AuthenticationFailure);
            },
        };
        if !bytes_eq(&v.address, &vault_address) {
            return Err(EscrowError::AuthenticationFailure);
        }
        if ctx.token_account_taker_b.amount < e.amount_b {
            return Err(EscrowError::Ledger(LedgerError::InsufficientFunds));
        }
        if ctx.token_account_maker_b.amount > u64::MAX - e.amount_b {
            return Err(EscrowError::Ledger(LedgerError::BalanceOverflow));
        }
        if ctx.token_account_taker_a.amount > u64::MAX - v.amount {
            return Err(EscrowError::Ledger(LedgerError::BalanceOverflow));
        }
        vault_amount = v.amount;
        trade_amount_b = e.amount_b;
    }
    ctx.token_account_taker_b.amount = ctx.token_account_taker_b.amount - trade_amount_b;
    ctx.token_account_maker_b.amount = ctx.token_account_maker_b.amount + trade_amount_b;
    ctx.token_account_taker_a.amount = ctx.token_account_taker_a.amount + vault_amount;
    ctx.escrow = None;
    ctx.vault = None;
    proof {
        assert(ctx@ =~~= exchange_spec(old(ctx)@, program_id@).0);
    }
    Ok(())
}

} // verus!
