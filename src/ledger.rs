use vstd::prelude::*;

use crate::errors::VaultError;
use crate::instructions::Transfers;

verus! {

/// The four balances an operation moves between: the vault's native balance
/// and pooled tokens, and the caller's native balance and tokens.
#[derive(Clone, Copy, Debug, PartialEq, Eq, Structural)]
pub struct Balances {
    pub vault_native: u64,
    pub vault_tokens: u64,
    pub caller_native: u64,
    pub caller_tokens: u64,
}

/// The balances after a batch, or `None` when a leg cannot be applied (a
/// payer short of funds, or a balance past `u64::MAX`). The native leg always
/// runs from the caller to the vault; the token leg runs out of the vault
/// when the vault signs it, and into the vault otherwise.
pub open spec fn settle_spec(b: Balances, t: Transfers) -> Option<Balances> {
    let lamports = t.native.lamports as int;
    let amount = t.token.amount as int;
    let outbound = t.token.vault_signer is Some;
    let vault_native = b.vault_native + lamports;
    let caller_native = b.caller_native - lamports;
    let vault_tokens = if outbound {
        b.vault_tokens - amount
    } else {
        b.vault_tokens + amount
    };
    let caller_tokens = if outbound {
        b.caller_tokens + amount
    } else {
        b.caller_tokens - amount
    };
    if 0 <= caller_native && vault_native <= u64::MAX && 0 <= vault_tokens && vault_tokens
        <= u64::MAX && 0 <= caller_tokens && caller_tokens <= u64::MAX {
        Some(
            Balances {
                vault_native: vault_native as u64,
                vault_tokens: vault_tokens as u64,
                caller_native: caller_native as u64,
                caller_tokens: caller_tokens as u64,
            },
        )
    } else {
        None
    }
}

/// The balances after an operation's outcome: a refused operation, or a
/// batch with a leg that cannot be applied, changes nothing.
pub open spec fn outcome(b: Balances, r: Result<Transfers, VaultError>) -> Balances {
    match r {
        Err(_) => b,
        Ok(t) => match settle_spec(b, t) {
            Some(after) => after,
            None => b,
        },
    }
}

impl Balances {
    /// Applies both legs of `t`, or neither. Returns whether they were applied.
    pub fn settle(&mut self, t: &Transfers) -> (r: bool)
        ensures
            r == settle_spec(*old(self), *t) is Some,
            r ==> *final(self) == settle_spec(*old(self), *t)->0,
            !r ==> *final(self) == *old(self),
    {
        let lamports = t.native.lamports;
        let amount = t.token.amount;
        if self.caller_native < lamports || self.vault_native > u64::MAX - lamports {
            return false;
        }
        let vault_tokens: u64;
        let caller_tokens: u64;
        if t.token.vault_signer.is_some() {
            if self.vault_tokens < amount || self.caller_tokens > u64::MAX - amount {
                return false;
            }
            vault_tokens = self.vault_tokens - amount;
            caller_tokens = self.caller_tokens + amount;
        } else {
            if self.caller_tokens < amount || self.vault_tokens > u64::MAX - amount {
                return false;
            }
            vault_tokens = self.vault_tokens + amount;
            caller_tokens = self.caller_tokens - amount;
        }
        self.vault_native = self.vault_native + lamports;
        self.caller_native = self.caller_native - lamports;
        self.vault_tokens = vault_tokens;
        self.caller_tokens = caller_tokens;
        true
    }
}

} // verus!
