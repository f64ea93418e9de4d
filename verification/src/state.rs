use vstd::prelude::*;
use crate::error::VaultError;

verus! {

/// The identity of a fungible asset (a mint). The underlying ledger
/// addresses assets by opaque identities; the engine only ever compares
/// them, so a plain integer carries everything the logic reads.
#[derive(Clone, Copy, Debug, PartialEq, Eq, Structural)]
pub struct AssetId {
    pub id: u64,
}

/// The identity of a ledger account (a balance-holding record).
#[derive(Clone, Copy, Debug, PartialEq, Eq, Structural)]
pub struct AccountId {
    pub id: u64,
}

/// The durable record of one vault: which share asset represents claims on
/// it, which underlying asset it custodies, and where that custody balance
/// lives. Written once at vault creation, immutable thereafter.
#[derive(Clone, Copy, Debug, PartialEq, Eq, Structural)]
pub struct Vault {
    /// The asset minted on deposits and burned on redeems.
    pub share_mint: AssetId,
    /// The underlying asset held by the vault.
    pub underlying_mint: AssetId,
    /// The account that holds the vault's underlying assets.
    pub vault_token_account: AccountId,
    /// Derivation salt of the vault's address.
    pub bump: u8,
}

/// The administrative record: who owns the protocol. Mutated only by an
/// explicit ownership transfer; never touched by deposit or redeem.
#[derive(Clone, Copy, Debug, PartialEq, Eq, Structural)]
pub struct ProtocolState {
    /// The protocol owner who can perform administrative actions.
    pub owner: AccountId,
    /// Derivation salt of the record's address.
    pub bump: u8,
}

/// The capability record under which the engine authorizes mints of the
/// share asset and transfers out of vault custody: a process-wide singleton,
/// created once, never mutated.
#[derive(Clone, Copy, Debug, PartialEq, Eq, Structural)]
pub struct VaultAuthority {
    /// Derivation salt of the record's address.
    pub bump: u8,
}

impl ProtocolState {
    /// Hands ownership to `new_owner`, provided `current_owner` matches the
    /// stored owner; otherwise fails with `Unauthorized` and changes nothing.
    pub fn transfer_ownership(
        &mut self,
        current_owner: AccountId,
        new_owner: AccountId,
    ) -> (r: Result<(), VaultError>)
        ensures
            r is Ok <==> current_owner == old(self).owner,
            r is Ok ==> *final(self) == (ProtocolState { owner: new_owner, ..*old(self) }),
            r is Err ==> r == Err::<(), VaultError>(VaultError::Unauthorized) && *final(self) == *old(self),
    {
        if current_owner.id == self.owner.id {
            self.owner = new_owner;
            Ok(())
        } else {
            Err(VaultError::Unauthorized)
        }
    }
}

} // verus!
