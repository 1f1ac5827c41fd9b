//! A trustless two-party conditional exchange (escrow) of fungible assets.
//!
//! A maker deposits asset A into a custody vault and names how much of
//! asset B it wants in return; a taker may fulfil the trade atomically
//! (`exchange`), or the maker may cancel and reclaim the deposit
//! (`cancel`). The escrow record and its vault live at deterministically
//! derived addresses, and the vault's sole spending authority is the
//! record itself, never a user key.
//!
//! The asset ledger itself (the external collaborator that moves balances
//! between accounts on chain) is modelled by the account values each
//! transition takes and returns; the address derivation is the real one,
//! called through `solana-program`.

pub mod accounts;
pub mod bytes;
pub mod codec;
pub mod laws;
pub mod pda;
pub mod protocol;
