use vstd::prelude::*;
use crate::error::VaultError;
use crate::state::{AccountId, AssetId, ProtocolState, Vault, VaultAuthority};

verus! {

/// Whether some vault in `vaults` custodies the asset `underlying_mint`.
pub open spec fn has_vault_for(vaults: Seq<Vault>, underlying_mint: AssetId) -> bool {
    exists|i: int| 0 <= i < vaults.len() && vaults[i].underlying_mint == underlying_mint
}

/// The durable records of one deployment: the administrative state and the
/// signing authority, each created once, and the vault records, at most one
/// per underlying asset. Where records live at deterministically derived
/// addresses, uniqueness follows from the derivation itself; this registry
/// enforces it as an explicit constraint instead.
pub struct VaultRegistry {
    /// The administrative record; `None` until the deployment is initialized.
    pub protocol: Option<ProtocolState>,
    /// The capability under which vault custody is operated; `None` until
    /// the deployment is initialized.
    pub authority: Option<VaultAuthority>,
    /// Every vault created so far.
    pub vaults: Vec<Vault>,
}

impl VaultRegistry {
    /// One vault per underlying asset: no two records custody the same one.
    pub open spec fn wf(self) -> bool {
        forall|i: int, j: int|
            0 <= i < j < self.vaults@.len() ==> self.vaults@[i].underlying_mint
                != self.vaults@[j].underlying_mint
    }

    /// An empty registry: nothing initialized, no vaults.
    pub fn new() -> (r: VaultRegistry)
        ensures
            r.wf(),
            r.protocol is None,
            r.authority is None,
            r.vaults@.len() == 0,
    {
        VaultRegistry { protocol: None, authority: None, vaults: Vec::new() }
    }

    /// Creates the administrative record and the signing authority, exactly
    /// once per deployment: fails with `AlreadyExists` when either is
    /// already there, and otherwise records `owner` as the protocol owner.
    pub fn initialize(
        &mut self,
        owner: AccountId,
        protocol_bump: u8,
        authority_bump: u8,
    ) -> (r: Result<(), VaultError>)
        requires
            old(self).wf(),
        ensures
            final(self).wf(),
            old(self).protocol is Some || old(self).authority is Some ==> {
                &&& r == Err::<(), VaultError>(VaultError::AlreadyExists)
                &&& *final(self) == *old(self)
            },
            old(self).protocol is None && old(self).authority is None ==> {
                &&& r is Ok
                &&& final(self).protocol == Some(
                    ProtocolState { owner, bump: protocol_bump },
                )
                &&& final(self).authority == Some(VaultAuthority { bump: authority_bump })
                &&& final(self).vaults@ == old(self).vaults@
            },
    {
        if self.protocol.is_some() || self.authority.is_some() {
            return Err(VaultError::AlreadyExists);
        }
        self.protocol = Some(ProtocolState { owner, bump: protocol_bump });
        self.authority = Some(VaultAuthority { bump: authority_bump });
        Ok(())
    }

    /// Looks the vault for `underlying_mint` up; `NotFound` exactly when no
    /// vault custodies that asset.
    pub fn get(&self, underlying_mint: AssetId) -> (r: Result<Vault, VaultError>)
        ensures
            r matches Ok(v) ==> {
                &&& exists|i: int| 0 <= i < self.vaults@.len() && self.vaults@[i] == v
                &&& v.underlying_mint == underlying_mint
            },
            r is Ok <==> has_vault_for(self.vaults@, underlying_mint),
            r is Err ==> r == Err::<Vault, VaultError>(VaultError::NotFound),
    {
        let n = self.vaults.len();
        let mut i: usize = 0;
        while i < n
            invariant
                n == self.vaults@.len(),
                0 <= i <= n,
                forall|j: int| 0 <= j < i ==> self.vaults@[j].underlying_mint != underlying_mint,
            decreases n - i,
        {
            if self.vaults[i].underlying_mint.id == underlying_mint.id {
                return Ok(self.vaults[i]);
            }
            i = i + 1;
        }
        Err(VaultError::NotFound)
    }

    /// Creates the vault record for `underlying_mint`, exactly once per
    /// underlying asset: fails with `NotFound` when the deployment was never
    /// initialized (there is no authority to operate the custody account),
    /// with `AlreadyExists` when a vault for that asset is already recorded,
    /// and otherwise appends and returns the new record.
    pub fn initialize_vault(
        &mut self,
        underlying_mint: AssetId,
        share_mint: AssetId,
        vault_token_account: AccountId,
        bump: u8,
    ) -> (r: Result<Vault, VaultError>)
        requires
            old(self).wf(),
        ensures
            final(self).wf(),
            old(self).authority is None ==> {
                &&& r == Err::<Vault, VaultError>(VaultError::NotFound)
                &&& *final(self) == *old(self)
            },
            old(self).authority is Some && has_vault_for(old(self).vaults@, underlying_mint)
                ==> {
                &&& r == Err::<Vault, VaultError>(VaultError::AlreadyExists)
                &&& *final(self) == *old(self)
            },
            old(self).authority is Some && !has_vault_for(old(self).vaults@, underlying_mint)
                ==> {
                &&& r == Ok::<Vault, VaultError>(
                    Vault { share_mint, underlying_mint, vault_token_account, bump },
                )
                &&& final(self).vaults@ == old(self).vaults@.push(
                    Vault { share_mint, underlying_mint, vault_token_account, bump },
                )
                &&& final(self).protocol == old(self).protocol
                &&& final(self).authority == old(self).authority
            },
    {
        if self.authority.is_none() {
            return Err(VaultError::NotFound);
        }
        match self.get(underlying_mint) {
            Ok(_) => Err(VaultError::AlreadyExists),
            Err(_) => {
                let vault = Vault { share_mint, underlying_mint, vault_token_account, bump };
                self.vaults.push(vault);
                Ok(vault)
            },
        }
    }

    /// Hands protocol ownership to `new_owner` when `current_owner` is the
    /// recorded owner: `NotFound` when the deployment was never initialized,
    /// `Unauthorized` when the caller is not the owner.
    pub fn transfer_ownership(
        &mut self,
        current_owner: AccountId,
        new_owner: AccountId,
    ) -> (r: Result<(), VaultError>)
        requires
            old(self).wf(),
        ensures
            final(self).wf(),
            final(self).authority == old(self).authority,
            final(self).vaults@ == old(self).vaults@,
            old(self).protocol is None ==> {
                &&& r == Err::<(), VaultError>(VaultError::NotFound)
                &&& *final(self) == *old(self)
            },
            old(self).protocol matches Some(p) ==> {
                &&& (r is Ok <==> current_owner == p.owner)
                &&& (r is Ok ==> final(self).protocol == Some(
                    ProtocolState { owner: new_owner, ..p },
                ))
                &&& (r is Err ==> r == Err::<(), VaultError>(VaultError::Unauthorized)
                    && *final(self) == *old(self))
            },
    {
        match self.protocol {
            None => Err(VaultError::NotFound),
            Some(p) => {
                let mut state = p;
                let r = state.transfer_ownership(current_owner, new_owner);
                self.protocol = Some(state);
                r
            },
        }
    }
}

} // verus!
