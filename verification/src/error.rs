use vstd::prelude::*;

verus! {

/// Every way a vault operation can fail.
///
/// Input validation (`InvalidAmount`, `InvalidShareAsset`) is surfaced
/// immediately with no state change; numeric safety (`MathOverflow`) fails
/// closed; the economic-soundness guards (`InsufficientShares`,
/// `InsufficientUnderlying`, `InvalidVaultState`, `NoShares`, `EmptyVault`)
/// protect counterparties from value loss; `InsufficientFunds` is the
/// ledger's refusal to move more than an account holds; `Unauthorized`,
/// `AlreadyExists` and `NotFound` belong to the administrative surface.
#[derive(Clone, Copy, Debug, PartialEq, Eq, Structural)]
pub enum VaultError {
    InvalidAmount,
    InvalidShareAsset,
    InvalidVaultState,
    MathOverflow,
    InsufficientShares,
    InsufficientUnderlying,
    NoShares,
    EmptyVault,
    InsufficientFunds,
    Unauthorized,
    AlreadyExists,
    NotFound,
}

impl VaultError {
    /// A short description of the error, for reports outside the library.
    pub fn describe(&self) -> (r: String)
        ensures
            r@.len() > 0,
    {
        let r = match self {
            VaultError::InvalidAmount => "amount must be greater than zero",
            VaultError::InvalidShareAsset => "share account does not match the vault's share asset",
            VaultError::InvalidVaultState => "shares outstanding against a drained vault",
            VaultError::MathOverflow => "math operation overflow",
            VaultError::InsufficientShares => "insufficient shares would be minted",
            VaultError::InsufficientUnderlying => "insufficient underlying would be returned",
            VaultError::NoShares => "no shares exist in circulation",
            VaultError::EmptyVault => "vault has no assets",
            VaultError::InsufficientFunds => "account balance is too small",
            VaultError::Unauthorized => "caller is not the current owner",
            VaultError::AlreadyExists => "the record already exists",
            VaultError::NotFound => "the record does not exist",
        };
        proof {
            reveal_strlit("amount must be greater than zero");
            reveal_strlit("share account does not match the vault's share asset");
            reveal_strlit("shares outstanding against a drained vault");
            reveal_strlit("math operation overflow");
            reveal_strlit("insufficient shares would be minted");
            reveal_strlit("insufficient underlying would be returned");
            reveal_strlit("no shares exist in circulation");
            reveal_strlit("vault has no assets");
            reveal_strlit("account balance is too small");
            reveal_strlit("caller is not the current owner");
            reveal_strlit("the record already exists");
            reveal_strlit("the record does not exist");
        }
        r.to_owned()
    }
}

} // verus!
