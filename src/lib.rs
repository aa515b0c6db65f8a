//! A custodial liquidity vault: one pool of native currency and one pooled
//! token, grown by deposits and drained by fixed-rate swaps.
//!
//! The library decides every operation on plain values: it validates the
//! inputs, computes the amounts, and returns the transfers that the host must
//! apply as one atomic batch. [`Balances`] models that batch.
mod errors;
mod instructions;
mod laws;
mod ledger;
mod state;

pub use errors::VaultError;
pub use state::{authority_seed, initialize, Address, VaultAuthority, VaultRecord};
pub use instructions::{
    add_liquidity, deposit_spec, swap_cost, swap_cost_spec, swap_sol_for_token, swap_spec,
    AddLiquidity, NativeTransfer, Swap, TokenTransfer, Transfers, EXCHANGE_RATE,
};
pub use ledger::{outcome, settle_spec, Balances};
pub use laws::{
    lemma_deposit_credits_vault, lemma_deposit_misrouted, lemma_swap_exact_balance,
    lemma_swap_exact_multiple, lemma_swap_rounds_down, lemma_swap_whole_pool,
};
