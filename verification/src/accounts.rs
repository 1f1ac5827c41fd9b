//! The ledger entities the protocol reads and writes: fungible-asset token
//! accounts, the escrow record, and the protocol's error taxonomy.

use vstd::prelude::*;

verus! {

/// A fungible-asset account on the ledger: its own address, the asset type
/// it holds, the identity allowed to spend from it, and its balance.
#[derive(Clone, Debug, PartialEq, Eq)]
pub struct TokenAccount {
    pub address: Vec<u8>,
    pub mint: Vec<u8>,
    pub owner: Vec<u8>,
    pub amount: u64,
}

/// Mathematical value of a [`TokenAccount`].
#[verifier::ext_equal]
pub ghost struct TokenAccountV {
    pub address: Seq<u8>,
    pub mint: Seq<u8>,
    pub owner: Seq<u8>,
    pub amount: u64,
}

impl View for TokenAccount {
    type V = TokenAccountV;

    open spec fn view(&self) -> TokenAccountV {
        TokenAccountV {
            address: self.address@,
            mint: self.mint@,
            owner: self.owner@,
            amount: self.amount,
        }
    }
}

/// The durable record of one trade: the maker's identity, the two asset
/// types, the two amounts, and the two stored derivation proofs (bumps) that
/// let later transitions re-derive and authenticate the record's and the
/// vault's addresses.
#[derive(Clone, Debug, PartialEq, Eq)]
pub struct Escrow {
    pub authority: Vec<u8>,
    pub mint_token_maker: Vec<u8>,
    pub mint_token_taker: Vec<u8>,
    pub amount_a: u64,
    pub amount_b: u64,
    pub escrow_bump: u8,
    pub vault_bump: u8,
}

/// Mathematical value of an [`Escrow`] record.
#[verifier::ext_equal]
pub ghost struct EscrowV {
    pub authority: Seq<u8>,
    pub mint_token_maker: Seq<u8>,
    pub mint_token_taker: Seq<u8>,
    pub amount_a: u64,
    pub amount_b: u64,
    pub escrow_bump: u8,
    pub vault_bump: u8,
}

impl View for Escrow {
    type V = EscrowV;

    open spec fn view(&self) -> EscrowV {
        EscrowV {
            authority: self.authority@,
            mint_token_maker: self.mint_token_maker@,
            mint_token_taker: self.mint_token_taker@,
            amount_a: self.amount_a,
            amount_b: self.amount_b,
            escrow_bump: self.escrow_bump,
            vault_bump: self.vault_bump,
        }
    }
}

/// A failure of the external ledger's own transfer primitive.
#[derive(Clone, Copy, Debug, PartialEq, Eq)]
pub enum LedgerError {
    /// The debited account holds less than the transfer amount.
    InsufficientFunds,
    /// The credited account's balance would exceed the representable maximum.
    BalanceOverflow,
}

/// Why a transition was refused. A refused transition leaves every account
/// unchanged.
#[derive(Clone, Copy, Debug, PartialEq, Eq)]
pub enum EscrowError {
    /// Create found the derived record or vault address already occupied.
    AlreadyExists,
    /// An account's asset type does not match the expected mint.
    MintMismatch,
    /// The caller's identity fails an ownership check.
    Unauthorized,
    /// The maker-designated destination is not owned by the record's
    /// authority.
    MakerAccountMismatch,
    /// The record or the vault is missing: already finalized, or never
    /// created.
    NotFound,
    /// Re-deriving the signer from the stored terms and proof does not match
    /// the vault's recorded authority: an address-substitution or tampering
    /// attempt.
    AuthenticationFailure,
    /// The bump search found no valid address for these inputs (statistically
    /// improbable).
    DerivationFailure,
    /// The external ledger's transfer failed.
    Ledger(LedgerError),
}

} // verus!
