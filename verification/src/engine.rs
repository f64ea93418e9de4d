use vstd::prelude::*;
use crate::error::VaultError;
use crate::math::{mul_div, mul_div_floor};
use crate::state::{AssetId, Vault};
use vstd::arithmetic::div_mod::{
    lemma_div_is_ordered, lemma_div_multiples_vanish, lemma_div_pos_is_pos,
};
use vstd::arithmetic::mul::{
    lemma_mul_inequality, lemma_mul_is_commutative, lemma_mul_nonnegative,
};

verus! {

/// What a deposit of `amount` must mint, given the share supply and the
/// custody balance read before any mutation. This is the exchange-rate rule
/// of the engine, stated exactly:
/// - a zero amount is rejected;
/// - with no shares outstanding the vault is in its bootstrap state and the
///   first deposit mints 1:1, whatever residue sits in custody;
/// - shares outstanding against a drained vault is an invalid state;
/// - otherwise the depositor receives `floor(amount * shares / assets)`,
///   never more than the exact proportional entitlement, rejected when it
///   overflows 64 bits or rounds down to nothing.
pub open spec fn shares_to_mint_spec(
    amount: u64,
    total_shares: u64,
    total_assets: u64,
) -> Result<u64, VaultError> {
    if amount == 0 {
        Err(VaultError::InvalidAmount)
    } else if total_shares == 0 {
        Ok(amount)
    } else if total_assets == 0 {
        Err(VaultError::InvalidVaultState)
    } else {
        let q = mul_div(amount, total_shares, total_assets);
        if q > u64::MAX {
            Err(VaultError::MathOverflow)
        } else if q == 0 {
            Err(VaultError::InsufficientShares)
        } else {
            Ok(q as u64)
        }
    }
}

/// What redeeming `shares` must return, symmetrically: a zero request, an
/// empty share supply and an empty vault are each rejected; otherwise the
/// redeemer receives `floor(shares * assets / shares_outstanding)`, never
/// more than the exact proportional slice, rejected when it overflows 64
/// bits or rounds down to nothing.
pub open spec fn underlying_to_return_spec(
    shares: u64,
    total_shares: u64,
    total_assets: u64,
) -> Result<u64, VaultError> {
    if shares == 0 {
        Err(VaultError::InvalidAmount)
    } else if total_shares == 0 {
        Err(VaultError::NoShares)
    } else if total_assets == 0 {
        Err(VaultError::EmptyVault)
    } else {
        let q = mul_div(shares, total_assets, total_shares);
        if q > u64::MAX {
            Err(VaultError::MathOverflow)
        } else if q == 0 {
            Err(VaultError::InsufficientUnderlying)
        } else {
            Ok(q as u64)
        }
    }
}

/// Computes the shares a deposit mints, exactly as `shares_to_mint_spec`
/// says, in a 128-bit intermediate.
pub fn compute_shares_to_mint(
    amount: u64,
    total_shares: u64,
    total_assets: u64,
) -> (r: Result<u64, VaultError>)
    ensures
        r == shares_to_mint_spec(amount, total_shares, total_assets),
{
    if amount == 0 {
        return Err(VaultError::InvalidAmount);
    }
    if total_shares == 0 {
        return Ok(amount);
    }
    if total_assets == 0 {
        return Err(VaultError::InvalidVaultState);
    }
    match mul_div_floor(amount, total_shares, total_assets) {
        None => Err(VaultError::MathOverflow),
        Some(q) => {
            if q == 0 {
                Err(VaultError::InsufficientShares)
            } else {
                Ok(q)
            }
        },
    }
}

/// Computes the underlying a redemption returns, exactly as
/// `underlying_to_return_spec` says, in a 128-bit intermediate.
pub fn compute_underlying_to_return(
    shares: u64,
    total_shares: u64,
    total_assets: u64,
) -> (r: Result<u64, VaultError>)
    ensures
        r == underlying_to_return_spec(shares, total_shares, total_assets),
{
    if shares == 0 {
        return Err(VaultError::InvalidAmount);
    }
    if total_shares == 0 {
        return Err(VaultError::NoShares);
    }
    if total_assets == 0 {
        return Err(VaultError::EmptyVault);
    }
    match mul_div_floor(shares, total_assets, total_shares) {
        None => Err(VaultError::MathOverflow),
        Some(q) => {
            if q == 0 {
                Err(VaultError::InsufficientUnderlying)
            } else {
                Ok(q)
            }
        },
    }
}

/// The slice of the asset ledger that one vault's operations read and
/// write: the vault's custody balance, the counterparty's balance of the
/// underlying asset, the share supply, and the counterparty's share balance.
/// The ledger owns the real balances; the engine sees them as plain 64-bit
/// quantities.
#[derive(Clone, Copy, Debug, PartialEq, Eq, Structural)]
pub struct LedgerState {
    /// Balance of the vault's custody account.
    pub vault_underlying: u64,
    /// The depositor's balance of the underlying asset.
    pub depositor_underlying: u64,
    /// Total supply of the share asset.
    pub share_supply: u64,
    /// The depositor's balance of the share asset.
    pub depositor_shares: u64,
}

impl LedgerState {
    /// What any real ledger guarantees of these four balances: the two
    /// underlying balances are part of one 64-bit supply, and the
    /// depositor's shares are part of the share supply.
    pub open spec fn wf(self) -> bool {
        &&& self.vault_underlying + self.depositor_underlying <= u64::MAX
        &&& self.depositor_shares <= self.share_supply
    }

    /// The outcome a deposit of `amount` is owed on this state: the minted
    /// shares per the exchange-rate rule, unless the depositor cannot fund
    /// the transfer or the mint would overflow the share supply.
    pub open spec fn deposit_outcome(self, amount: u64) -> Result<u64, VaultError> {
        match shares_to_mint_spec(amount, self.share_supply, self.vault_underlying) {
            Err(e) => Err(e),
            Ok(m) => if self.depositor_underlying < amount {
                Err(VaultError::InsufficientFunds)
            } else if self.share_supply + m > u64::MAX {
                Err(VaultError::MathOverflow)
            } else {
                Ok(m)
            },
        }
    }

    /// The state a successful deposit leaves behind: `amount` moved from the
    /// depositor into custody, `minted` shares created for the depositor.
    pub open spec fn deposit_applied(self, amount: u64, minted: u64) -> LedgerState {
        LedgerState {
            vault_underlying: (self.vault_underlying + amount) as u64,
            depositor_underlying: (self.depositor_underlying - amount) as u64,
            share_supply: (self.share_supply + minted) as u64,
            depositor_shares: (self.depositor_shares + minted) as u64,
        }
    }

    /// The outcome a redemption of `shares` is owed: the returned underlying
    /// per the exchange-rate rule, unless the redeemer does not hold the
    /// shares to burn.
    pub open spec fn redeem_outcome(self, shares: u64) -> Result<u64, VaultError> {
        match underlying_to_return_spec(shares, self.share_supply, self.vault_underlying) {
            Err(e) => Err(e),
            Ok(u) => if self.depositor_shares < shares {
                Err(VaultError::InsufficientFunds)
            } else {
                Ok(u)
            },
        }
    }

    /// The state a successful redemption leaves behind: `shares` burned from
    /// the redeemer, `returned` underlying moved from custody to the
    /// redeemer.
    pub open spec fn redeem_applied(self, shares: u64, returned: u64) -> LedgerState {
        LedgerState {
            vault_underlying: (self.vault_underlying - returned) as u64,
            depositor_underlying: (self.depositor_underlying + returned) as u64,
            share_supply: (self.share_supply - shares) as u64,
            depositor_shares: (self.depositor_shares - shares) as u64,
        }
    }

    /// Deposits `amount` of the underlying asset: reads supply and custody
    /// balance, computes the shares owed, then transfers `amount` into
    /// custody and mints those shares — all or nothing. On any error the
    /// ledger is untouched. A successful deposit conserves the underlying
    /// asset, moves exactly `amount`, and never mints zero shares.
    pub fn deposit(&mut self, amount: u64) -> (r: Result<u64, VaultError>)
        requires
            old(self).wf(),
        ensures
            final(self).wf(),
            r == old(self).deposit_outcome(amount),
            r is Err ==> *final(self) == *old(self),
            r matches Ok(minted) ==> {
                &&& *final(self) == old(self).deposit_applied(amount, minted)
                &&& final(self).vault_underlying + final(self).depositor_underlying
                    == old(self).vault_underlying + old(self).depositor_underlying
                &&& final(self).vault_underlying == old(self).vault_underlying + amount
                &&& final(self).depositor_underlying == old(self).depositor_underlying - amount
                &&& final(self).share_supply == old(self).share_supply + minted
                &&& final(self).depositor_shares == old(self).depositor_shares + minted
                &&& minted > 0
                &&& old(self).share_supply == 0 ==> minted == amount
            },
    {
        let minted = match compute_shares_to_mint(amount, self.share_supply, self.vault_underlying) {
            Err(e) => {
                return Err(e);
            },
            Ok(m) => m,
        };
        if self.depositor_underlying < amount {
            return Err(VaultError::InsufficientFunds);
        }
        if self.share_supply > u64::MAX - minted {
            return Err(VaultError::MathOverflow);
        }
        self.depositor_underlying = self.depositor_underlying - amount;
        self.vault_underlying = self.vault_underlying + amount;
        self.share_supply = self.share_supply + minted;
        self.depositor_shares = self.depositor_shares + minted;
        Ok(minted)
    }

    /// Redeems `shares` of the share asset: computes the underlying owed,
    /// then burns the shares and transfers that much out of custody — all or
    /// nothing. On any error the ledger is untouched. A successful
    /// redemption conserves the underlying asset, moves exactly what was
    /// computed, and never returns zero value.
    pub fn redeem(&mut self, shares: u64) -> (r: Result<u64, VaultError>)
        requires
            old(self).wf(),
        ensures
            final(self).wf(),
            r == old(self).redeem_outcome(shares),
            r is Err ==> *final(self) == *old(self),
            r matches Ok(returned) ==> {
                &&& *final(self) == old(self).redeem_applied(shares, returned)
                &&& final(self).vault_underlying + final(self).depositor_underlying
                    == old(self).vault_underlying + old(self).depositor_underlying
                &&& final(self).vault_underlying == old(self).vault_underlying - returned
                &&& final(self).depositor_underlying == old(self).depositor_underlying + returned
                &&& final(self).share_supply == old(self).share_supply - shares
                &&& final(self).depositor_shares == old(self).depositor_shares - shares
                &&& returned > 0
            },
    {
        let returned = match compute_underlying_to_return(
            shares,
            self.share_supply,
            self.vault_underlying,
        ) {
            Err(e) => {
                return Err(e);
            },
            Ok(u) => u,
        };
        if self.depositor_shares < shares {
            return Err(VaultError::InsufficientFunds);
        }
        proof {
            lemma_returned_le_vault_balance(
                shares,
                self.share_supply,
                self.vault_underlying,
                returned,
            );
        }
        self.depositor_shares = self.depositor_shares - shares;
        self.share_supply = self.share_supply - shares;
        self.vault_underlying = self.vault_underlying - returned;
        self.depositor_underlying = self.depositor_underlying + returned;
        Ok(returned)
    }
}

/// A redemption never drains more than the vault holds: when the burned
/// shares are no more than the whole supply, the proportional slice
/// `floor(shares * assets / supply)` is at most `assets`.
pub proof fn lemma_returned_le_vault_balance(
    shares: u64,
    total_shares: u64,
    total_assets: u64,
    returned: u64,
)
    requires
        shares <= total_shares,
        underlying_to_return_spec(shares, total_shares, total_assets) == Ok::<u64, VaultError>(
            returned,
        ),
    ensures
        returned <= total_assets,
{
    lemma_mul_nonnegative(shares as int, total_assets as int);
    lemma_div_pos_is_pos(shares * total_assets, total_shares as int);
    lemma_mul_inequality(shares as int, total_shares as int, total_assets as int);
    assert(shares * total_assets <= total_shares * total_assets);
    lemma_div_is_ordered(
        shares * total_assets,
        total_shares * total_assets,
        total_shares as int,
    );
    lemma_mul_is_commutative(total_shares as int, total_assets as int);
    lemma_div_multiples_vanish(total_assets as int, total_shares as int);
    assert((total_shares * total_assets) / (total_shares as int) == total_assets);
}

/// The outcome a deposit addressed to a specific vault is owed: a zero
/// amount is rejected first, then a share destination account whose declared
/// asset is not the vault's share asset, and only then does the
/// exchange-rate rule of `LedgerState::deposit_outcome` decide.
pub open spec fn vault_deposit_outcome(
    vault: Vault,
    destination_share_asset: AssetId,
    pre: LedgerState,
    amount: u64,
) -> Result<u64, VaultError> {
    if amount == 0 {
        Err(VaultError::InvalidAmount)
    } else if destination_share_asset != vault.share_mint {
        Err(VaultError::InvalidShareAsset)
    } else {
        pre.deposit_outcome(amount)
    }
}

/// Deposits into a specific vault on behalf of a share destination account:
/// rejects the call with `InvalidShareAsset` when the destination account's
/// declared asset is not the vault's share asset, and otherwise behaves as
/// `LedgerState::deposit`.
pub fn deposit(
    vault: &Vault,
    destination_share_asset: AssetId,
    ledger: &mut LedgerState,
    amount: u64,
) -> (r: Result<u64, VaultError>)
    requires
        old(ledger).wf(),
    ensures
        final(ledger).wf(),
        r == vault_deposit_outcome(*vault, destination_share_asset, *old(ledger), amount),
        r is Err ==> *final(ledger) == *old(ledger),
        r matches Ok(minted) ==> *final(ledger) == old(ledger).deposit_applied(amount, minted),
{
    if amount == 0 {
        return Err(VaultError::InvalidAmount);
    }
    if destination_share_asset.id != vault.share_mint.id {
        return Err(VaultError::InvalidShareAsset);
    }
    ledger.deposit(amount)
}

} // verus!
