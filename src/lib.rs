//! A two-party token-swap escrow: the initializer locks asset A, names a taker
//! and an amount of asset B, and the escrow either settles atomically or is
//! refunded and closed.
pub mod address;
pub mod authority;
pub mod error;
pub mod instructions;
pub mod laws;
pub mod ledger;
pub mod settlement;

pub use address::Address;
pub use authority::{
    derive_state_authority, le_bytes_of, state_seeds, state_tag, verify_state_authority,
};
pub use error::ErrorCode;
pub use instructions::{cancel, exchange, fund_vault_b, initialize, Cancel, Exchange, Initialize};
pub use laws::{
    lemma_cancel_restores, lemma_closed_after_cancel, lemma_closed_after_exchange,
    lemma_initialize_opens, lemma_seed_reuse_refused,
};
pub use ledger::{Escrow, EscrowEntry, Ledger, TokenAccount};
pub use settlement::min_acceptable_amount;
