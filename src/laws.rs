use vstd::prelude::*;

use crate::errors::VaultError;
use crate::instructions::{
    deposit_spec, swap_cost_spec, swap_spec, AddLiquidity, Swap, EXCHANGE_RATE,
};
use crate::ledger::{outcome, settle_spec, Balances};
use crate::state::VaultRecord;

verus! {

/// A deposit into the vault's own token account, whose legs the provider can
/// pay and the vault can hold, raises the vault's native balance by exactly
/// `sol_amount` and its pooled tokens by exactly `mint_amount`, taking the
/// same from the provider.
pub proof fn lemma_deposit_credits_vault(
    record: VaultRecord,
    accounts: AddLiquidity,
    sol_amount: u64,
    mint_amount: u64,
    before: Balances,
)
    requires
        accounts.to_ata@ == record.token_account@,
        before.caller_native >= sol_amount,
        before.caller_tokens >= mint_amount,
        before.vault_native + sol_amount <= u64::MAX,
        before.vault_tokens + mint_amount <= u64::MAX,
    ensures
        deposit_spec(record, accounts, sol_amount, mint_amount) is Ok,
        outcome(before, deposit_spec(record, accounts, sol_amount, mint_amount)).vault_native
            == before.vault_native + sol_amount,
        outcome(before, deposit_spec(record, accounts, sol_amount, mint_amount)).vault_tokens
            == before.vault_tokens + mint_amount,
        outcome(before, deposit_spec(record, accounts, sol_amount, mint_amount)).caller_native
            == before.caller_native - sol_amount,
        outcome(before, deposit_spec(record, accounts, sol_amount, mint_amount)).caller_tokens
            == before.caller_tokens - mint_amount,
{
}

/// A deposit aimed at any token account but the vault's is refused with
/// `AppAtaAddressesDoNotMatch` and moves no balance.
pub proof fn lemma_deposit_misrouted(
    record: VaultRecord,
    accounts: AddLiquidity,
    sol_amount: u64,
    mint_amount: u64,
    before: Balances,
)
    requires
        accounts.to_ata@ != record.token_account@,
    ensures
        deposit_spec(record, accounts, sol_amount, mint_amount) == Err::<
            crate::instructions::Transfers,
            VaultError,
        >(VaultError::AppAtaAddressesDoNotMatch),
        outcome(before, deposit_spec(record, accounts, sol_amount, mint_amount)) == before,
{
}

/// For a multiple of the exchange rate the cost is the exact quotient; a
/// swap that goes through moves exactly that cost from caller to vault and
/// exactly `token_amount` from vault to caller, and it goes through whenever
/// the balances are those the swap checked and neither receiver overflows.
pub proof fn lemma_swap_exact_multiple(
    record: VaultRecord,
    accounts: Swap,
    token_amount: u64,
    before: Balances,
)
    requires
        token_amount % EXCHANGE_RATE == 0,
    ensures
        swap_cost_spec(token_amount) * EXCHANGE_RATE == token_amount,
        swap_spec(record, accounts, token_amount) matches Ok(t) ==> {
            &&& t.native.lamports == swap_cost_spec(token_amount)
            &&& t.token.amount == token_amount
            &&& settle_spec(before, t) matches Some(after) ==> after == (Balances {
                vault_native: (before.vault_native + swap_cost_spec(token_amount)) as u64,
                vault_tokens: (before.vault_tokens - token_amount) as u64,
                caller_native: (before.caller_native - swap_cost_spec(token_amount)) as u64,
                caller_tokens: (before.caller_tokens + token_amount) as u64,
            })
        },
        swap_spec(record, accounts, token_amount) is Ok && before.caller_native
            == accounts.sender_lamports && before.vault_tokens == accounts.app_ata_amount
            && before.vault_native + swap_cost_spec(token_amount) <= u64::MAX
            && before.caller_tokens + token_amount <= u64::MAX ==> settle_spec(
            before,
            swap_spec(record, accounts, token_amount)->Ok_0,
        ) is Some,
{
}

/// Off a multiple of the exchange rate the cost is the floor of the ratio:
/// the caller pays for whole units only, short of the true price by less
/// than one unit, and the swap charges exactly that cost.
pub proof fn lemma_swap_rounds_down(record: VaultRecord, accounts: Swap, token_amount: u64)
    requires
        token_amount % EXCHANGE_RATE != 0,
    ensures
        swap_cost_spec(token_amount) * EXCHANGE_RATE < token_amount,
        token_amount < (swap_cost_spec(token_amount) + 1) * EXCHANGE_RATE,
        swap_spec(record, accounts, token_amount) matches Ok(t) ==> t.native.lamports
            == swap_cost_spec(token_amount),
{
}

/// A swap for the pool's whole balance, by a caller who can pay, is refused
/// with `AppInsufficientBalance` and moves no balance.
pub proof fn lemma_swap_whole_pool(
    record: VaultRecord,
    accounts: Swap,
    token_amount: u64,
    before: Balances,
)
    requires
        token_amount == accounts.app_ata_amount,
        accounts.sender_lamports > swap_cost_spec(token_amount),
    ensures
        swap_spec(record, accounts, token_amount) == Err::<
            crate::instructions::Transfers,
            VaultError,
        >(VaultError::AppInsufficientBalance),
        outcome(before, swap_spec(record, accounts, token_amount)) == before,
{
}

/// A swap by a caller whose native balance is exactly the cost is refused
/// with `SenderInsufficientBalance` and moves no balance.
pub proof fn lemma_swap_exact_balance(
    record: VaultRecord,
    accounts: Swap,
    token_amount: u64,
    before: Balances,
)
    requires
        accounts.sender_lamports == swap_cost_spec(token_amount),
    ensures
        swap_spec(record, accounts, token_amount) == Err::<
            crate::instructions::Transfers,
            VaultError,
        >(VaultError::SenderInsufficientBalance),
        outcome(before, swap_spec(record, accounts, token_amount)) == before,
{
}

} // verus!
