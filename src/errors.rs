use vstd::prelude::*;

verus! {

/// Why a vault operation was refused. Every refusal leaves all balances as
/// they were.
#[derive(Clone, Copy, Debug, PartialEq, Eq, Structural)]
pub enum VaultError {
    /// The bump that proves the vault's derived authority was not found.
    BumpNotFound,
    /// A deposit named a destination token account other than the vault's.
    AppAtaAddressesDoNotMatch,
    /// The caller cannot pay the native cost of a swap.
    SenderInsufficientBalance,
    /// The vault's pool cannot cover the tokens a swap asks for.
    AppInsufficientBalance,
}

} // verus!
