use vstd::prelude::*;

use crate::errors::VaultError;
use crate::state::{Address, VaultAuthority, VaultRecord};

verus! {

/// Tokens per unit of native currency, fixed for the vault's lifetime.
pub const EXCHANGE_RATE: u64 = 100;

/// The accounts a deposit touches.
#[derive(Clone, Copy, Debug)]
pub struct AddLiquidity {
    /// The vault's own address, which receives the native currency.
    pub app: Address,
    /// The liquidity provider, who signs both legs.
    pub from: Address,
    /// The provider's token account.
    pub from_ata: Address,
    /// The token account the provider names as destination.
    pub to_ata: Address,
}

/// The accounts a swap touches, with the two balances it checks.
#[derive(Clone, Copy, Debug)]
pub struct Swap {
    /// The vault's own address, which receives the native currency.
    pub app: Address,
    /// The vault's token account, which pays out the tokens.
    pub app_ata: Address,
    /// Pooled token balance of `app_ata`.
    pub app_ata_amount: u64,
    /// The caller, who pays in native currency.
    pub sender: Address,
    /// Native balance of `sender`.
    pub sender_lamports: u64,
    /// The caller's token account, which receives the tokens.
    pub sender_ata: Address,
}

/// A native-currency transfer, signed by `from`.
#[derive(Clone, Copy, Debug)]
pub struct NativeTransfer {
    pub from: Address,
    pub to: Address,
    pub lamports: u64,
}

/// A token transfer. `vault_signer` is present when the vault authorizes it
/// with its derived authority; otherwise `authority` signs it directly.
#[derive(Clone, Copy, Debug)]
pub struct TokenTransfer {
    pub from: Address,
    pub to: Address,
    pub authority: Address,
    pub amount: u64,
    pub vault_signer: Option<VaultAuthority>,
}

/// The two legs of an operation, to be applied as one atomic batch: the
/// native leg first, then the token leg.
#[derive(Clone, Copy, Debug)]
pub struct Transfers {
    pub native: NativeTransfer,
    pub token: TokenTransfer,
}

/// What a deposit does: refused unless the destination is the vault's token
/// account; otherwise both legs come from the provider, under its signature.
pub open spec fn deposit_spec(
    record: VaultRecord,
    accounts: AddLiquidity,
    sol_amount: u64,
    mint_amount: u64,
) -> Result<Transfers, VaultError> {
    if accounts.to_ata@ != record.token_account@ {
        Err(VaultError::AppAtaAddressesDoNotMatch)
    } else {
        Ok(
            Transfers {
                native: NativeTransfer { from: accounts.from, to: accounts.app, lamports: sol_amount },
                token: TokenTransfer {
                    from: accounts.from_ata,
                    to: accounts.to_ata,
                    authority: accounts.from,
                    amount: mint_amount,
                    vault_signer: None,
                },
            },
        )
    }
}

/// The native cost of `token_amount` tokens, rounded down.
pub open spec fn swap_cost_spec(token_amount: u64) -> u64 {
    token_amount / EXCHANGE_RATE
}

/// What a swap does: refused unless the caller holds more than the cost and
/// the pool holds more than the tokens asked for, the caller's balance being
/// checked first; otherwise the caller pays the cost into the vault and the
/// vault pays the tokens out under its derived authority.
pub open spec fn swap_spec(record: VaultRecord, accounts: Swap, token_amount: u64) -> Result<
    Transfers,
    VaultError,
> {
    let sol_amount = swap_cost_spec(token_amount);
    if accounts.sender_lamports <= sol_amount {
        Err(VaultError::SenderInsufficientBalance)
    } else if accounts.app_ata_amount <= token_amount {
        Err(VaultError::AppInsufficientBalance)
    } else {
        Ok(
            Transfers {
                native: NativeTransfer { from: accounts.sender, to: accounts.app, lamports: sol_amount },
                token: TokenTransfer {
                    from: accounts.app_ata,
                    to: accounts.sender_ata,
                    authority: accounts.app,
                    amount: token_amount,
                    vault_signer: Some(VaultAuthority { bump: record.authority_bump }),
                },
            },
        )
    }
}

/// The native cost of a swap for `token_amount` tokens: the integer quotient
/// by the exchange rate, so a remainder is never charged.
pub fn swap_cost(token_amount: u64) -> (r: u64)
    ensures
        r == swap_cost_spec(token_amount),
        r as int * EXCHANGE_RATE as int <= token_amount as int,
        (token_amount as int) < (r as int + 1) * EXCHANGE_RATE as int,
{
    token_amount / EXCHANGE_RATE
}

/// Checks a deposit and returns the transfers that carry it out.
pub fn add_liquidity(
    record: &VaultRecord,
    accounts: &AddLiquidity,
    sol_amount: u64,
    mint_amount: u64,
) -> (r: Result<Transfers, VaultError>)
    ensures
        r == deposit_spec(*record, *accounts, sol_amount, mint_amount),
{
    if accounts.to_ata != record.token_account {
        return Err(VaultError::AppAtaAddressesDoNotMatch);
    }
    let native = NativeTransfer { from: accounts.from, to: accounts.app, lamports: sol_amount };
    let token = TokenTransfer {
        from: accounts.from_ata,
        to: accounts.to_ata,
        authority: accounts.from,
        amount: mint_amount,
        vault_signer: None,
    };
    Ok(Transfers { native, token })
}

/// Checks a swap of native currency for `token_amount` pooled tokens and
/// returns the transfers that carry it out.
pub fn swap_sol_for_token(record: &VaultRecord, accounts: &Swap, token_amount: u64) -> (r: Result<
    Transfers,
    VaultError,
>)
    ensures
        r == swap_spec(*record, *accounts, token_amount),
{
    let sol_amount = swap_cost(token_amount);
    if accounts.sender_lamports <= sol_amount {
        return Err(VaultError::SenderInsufficientBalance);
    }
    if accounts.app_ata_amount <= token_amount {
        return Err(VaultError::AppInsufficientBalance);
    }
    let native = NativeTransfer { from: accounts.sender, to: accounts.app, lamports: sol_amount };
    let token = TokenTransfer {
        from: accounts.app_ata,
        to: accounts.sender_ata,
        authority: accounts.app,
        amount: token_amount,
        vault_signer: Some(record.authority()),
    };
    Ok(Transfers { native, token })
}

} // verus!
