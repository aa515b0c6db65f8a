use vstd::prelude::*;

use crate::errors::VaultError;

verus! {

/// The address of an account on the ledger: 32 bytes.
#[derive(Clone, Copy, Debug)]
pub struct Address {
    pub bytes: [u8; 32],
}

impl View for Address {
    type V = Seq<u8>;

    open spec fn view(&self) -> Seq<u8> {
        self.bytes@
    }
}

impl PartialEq for Address {
    fn eq(&self, o: &Address) -> (r: bool)
        ensures
            r == (self@ == o@),
    {
        let mut i: usize = 0;
        while i < 32
            invariant
                0 <= i <= 32,
                self@.len() == 32,
                o@.len() == 32,
                forall|j: int| 0 <= j < i ==> self@[j] == o@[j],
            decreases 32 - i,
        {
            if self.bytes[i] != o.bytes[i] {
                return false;
            }
            i = i + 1;
        }
        assert(self@ =~= o@);
        true
    }
}

impl vstd::std_specs::cmp::PartialEqSpecImpl for Address {
    open spec fn obeys_eq_spec() -> bool {
        true
    }

    open spec fn eq_spec(&self, o: &Address) -> bool {
        self@ == o@
    }
}

/// The vault's persisted record, written once by [`initialize`].
#[derive(Clone, Copy, Debug)]
pub struct VaultRecord {
    /// Seed discriminator that re-derives the vault's own address.
    pub authority_bump: u8,
    /// The token account that holds the pooled tokens.
    pub token_account: Address,
    /// The mint of the pooled token.
    pub token_mint: Address,
}

impl VaultRecord {
    /// The vault's derived authority, rebuilt from the stored bump.
    pub fn authority(&self) -> (r: VaultAuthority)
        ensures
            r == (VaultAuthority { bump: self.authority_bump }),
    {
        VaultAuthority { bump: self.authority_bump }
    }
}

/// The label the vault's authority address is derived from: the ASCII bytes
/// of `appata`.
pub open spec fn authority_seed() -> Seq<u8> {
    seq![97u8, 112u8, 112u8, 97u8, 116u8, 97u8]
}

/// The vault's power to sign transfers out of the accounts it owns. It holds
/// no secret: the signature is the seed label and the bump, from which the
/// host re-derives the vault's address.
#[derive(Clone, Copy, Debug, PartialEq, Eq, Structural)]
pub struct VaultAuthority {
    pub bump: u8,
}

impl VaultAuthority {
    /// The signer seeds for a transfer the vault authorizes: the seed label,
    /// then the bump as a single byte.
    pub fn signer_seeds(&self) -> (r: Vec<Vec<u8>>)
        ensures
            r@.len() == 2,
            r@[0]@ == authority_seed(),
            r@[1]@ == seq![self.bump],
    {
        let label: Vec<u8> = vec![97u8, 112u8, 112u8, 97u8, 116u8, 97u8];
        let bump: Vec<u8> = vec![self.bump];
        let seeds: Vec<Vec<u8>> = vec![label, bump];
        proof {
            assert(seeds@[0]@ =~= authority_seed());
            assert(seeds@[1]@ =~= seq![self.bump]);
        }
        seeds
    }
}

/// Creates the vault record from the bump found for the vault's derived
/// address (`None` when the derivation produced none) and the two addresses.
pub fn initialize(bump: Option<u8>, token_account: Address, token_mint: Address) -> (r: Result<
    VaultRecord,
    VaultError,
>)
    ensures
        r == (match bump {
            None => Err(VaultError::BumpNotFound),
            Some(b) => Ok(VaultRecord { authority_bump: b, token_account, token_mint }),
        }),
{
    match bump {
        None => Err(VaultError::BumpNotFound),
        Some(b) => Ok(VaultRecord { authority_bump: b, token_account, token_mint }),
    }
}

} // verus!
