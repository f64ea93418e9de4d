use vault_pda::engine::{
    compute_shares_to_mint, compute_underlying_to_return, deposit, LedgerState,
};
use vault_pda::error::VaultError;
use vault_pda::state::{AccountId, AssetId, Vault};

fn funded(vault: u64, depositor: u64, supply: u64, shares: u64) -> LedgerState {
    LedgerState {
        vault_underlying: vault,
        depositor_underlying: depositor,
        share_supply: supply,
        depositor_shares: shares,
    }
}

#[test]
fn bootstrap_deposit_mints_one_to_one() {
    let mut ledger = funded(0, 1_000_000, 0, 0);
    let minted = ledger.deposit(1_000_000).unwrap();
    assert_eq!(minted, 1_000_000);
    assert_eq!(ledger.vault_underlying, 1_000_000);
    assert_eq!(ledger.depositor_underlying, 0);
    assert_eq!(ledger.share_supply, 1_000_000);
    assert_eq!(ledger.depositor_shares, 1_000_000);
}

#[test]
fn proportional_deposit_at_par() {
    let mut ledger = funded(1_000_000, 500_000, 1_000_000, 1_000_000);
    let minted = ledger.deposit(500_000).unwrap();
    assert_eq!(minted, 500_000);
    assert_eq!(ledger.vault_underlying, 1_500_000);
    assert_eq!(ledger.share_supply, 1_500_000);
}

#[test]
fn deposit_after_yield_injection_is_diluted() {
    // Par state from a seed deposit, then 200_000 donated into custody.
    let mut ledger = funded(1_000_000, 1_000_000, 1_000_000, 1_000_000);
    let first = ledger.deposit(500_000).unwrap();
    assert_eq!(first, 500_000);
    ledger.vault_underlying += 200_000; // yield lands outside the deposit path
    let before_value = (ledger.vault_underlying as u128) * 1_000_000_000
        / (ledger.share_supply as u128);
    let minted = ledger.deposit(500_000).unwrap();
    // floor(500_000 * 1_500_000 / 1_700_000) = 441_176: strictly fewer
    // shares than the amount, diluted by the richer pool.
    assert_eq!(minted, 441_176);
    assert!(minted < 500_000);
    let after_value = (ledger.vault_underlying as u128) * 1_000_000_000
        / (ledger.share_supply as u128);
    assert!(after_value >= before_value);
}

#[test]
fn deposit_conserves_underlying() {
    let mut ledger = funded(3_000, 2_000, 3_000, 1_000);
    let total_before = ledger.vault_underlying + ledger.depositor_underlying;
    ledger.deposit(1_234).unwrap();
    assert_eq!(
        ledger.vault_underlying + ledger.depositor_underlying,
        total_before
    );
}

#[test]
fn deposit_rejects_zero_amount() {
    let mut ledger = funded(10, 10, 10, 10);
    assert_eq!(ledger.deposit(0), Err(VaultError::InvalidAmount));
    assert_eq!(ledger, funded(10, 10, 10, 10));
}

#[test]
fn deposit_rejects_drained_vault_with_shares_outstanding() {
    let mut ledger = funded(0, 100, 50, 50);
    assert_eq!(ledger.deposit(10), Err(VaultError::InvalidVaultState));
    assert_eq!(ledger, funded(0, 100, 50, 50));
}

#[test]
fn deposit_rejects_zero_share_mint() {
    // 1 * 1 / 1000 floors to zero: the depositor would pay and get nothing.
    let mut ledger = funded(1_000, 100, 1, 1);
    assert_eq!(ledger.deposit(1), Err(VaultError::InsufficientShares));
    assert_eq!(ledger, funded(1_000, 100, 1, 1));
}

#[test]
fn deposit_rejects_unfunded_depositor() {
    let mut ledger = funded(1_000, 5, 1_000, 0);
    assert_eq!(ledger.deposit(10), Err(VaultError::InsufficientFunds));
    assert_eq!(ledger, funded(1_000, 5, 1_000, 0));
}

#[test]
fn deposit_rejects_quotient_overflow() {
    // u64::MAX * u64::MAX / 1 cannot fit back into 64 bits.
    let mut ledger = funded(1, u64::MAX - 1, u64::MAX, 0);
    assert_eq!(ledger.deposit(u64::MAX), Err(VaultError::MathOverflow));
    assert_eq!(ledger, funded(1, u64::MAX - 1, u64::MAX, 0));
}

#[test]
fn deposit_rejects_share_supply_overflow() {
    // The quotient fits, but minting it would push the supply past 64 bits.
    let mut ledger = funded(1_000, 1_000, u64::MAX - 1, 0);
    assert_eq!(ledger.deposit(1_000), Err(VaultError::MathOverflow));
    assert_eq!(ledger, funded(1_000, 1_000, u64::MAX - 1, 0));
}

#[test]
fn redeem_all_shares_returns_entire_balance() {
    let mut ledger = funded(777, 100, 55, 55);
    let returned = ledger.redeem(55).unwrap();
    assert_eq!(returned, 777);
    assert_eq!(ledger.vault_underlying, 0);
    assert_eq!(ledger.share_supply, 0);
    assert_eq!(ledger.depositor_underlying, 877);
    assert_eq!(ledger.depositor_shares, 0);
}

#[test]
fn redeem_returns_proportional_slice() {
    let mut ledger = funded(3_000, 0, 1_500, 600);
    let returned = ledger.redeem(600).unwrap();
    // floor(600 * 3_000 / 1_500) = 1_200.
    assert_eq!(returned, 1_200);
    assert_eq!(ledger.vault_underlying, 1_800);
    assert_eq!(ledger.share_supply, 900);
}

#[test]
fn redeem_conserves_underlying() {
    let mut ledger = funded(3_000, 2_000, 3_000, 1_000);
    let total_before = ledger.vault_underlying + ledger.depositor_underlying;
    ledger.redeem(999).unwrap();
    assert_eq!(
        ledger.vault_underlying + ledger.depositor_underlying,
        total_before
    );
}

#[test]
fn redeem_rejects_zero_shares() {
    let mut ledger = funded(100, 100, 100, 100);
    assert_eq!(ledger.redeem(0), Err(VaultError::InvalidAmount));
}

#[test]
fn redeem_rejects_empty_supply() {
    let mut ledger = funded(100, 100, 0, 0);
    assert_eq!(ledger.redeem(5), Err(VaultError::NoShares));
}

#[test]
fn redeem_rejects_empty_vault() {
    let mut ledger = funded(0, 100, 50, 50);
    assert_eq!(ledger.redeem(5), Err(VaultError::EmptyVault));
}

#[test]
fn redeem_rejects_zero_return() {
    // 1 * 500 / 1_000 floors to zero: the redeemer would burn and get nothing.
    let mut ledger = funded(500, 0, 1_000, 10);
    assert_eq!(ledger.redeem(1), Err(VaultError::InsufficientUnderlying));
}

#[test]
fn redeem_rejects_shares_not_held() {
    let mut ledger = funded(100, 0, 100, 5);
    assert_eq!(ledger.redeem(10), Err(VaultError::InsufficientFunds));
    assert_eq!(ledger, funded(100, 0, 100, 5));
}

#[test]
fn redeem_rejects_quotient_overflow() {
    // A request for more shares than exist overflows before the burn fails.
    let mut ledger = funded(u64::MAX - 10, 10, 1, 1);
    assert_eq!(ledger.redeem(5), Err(VaultError::MathOverflow));
}

#[test]
fn compute_shares_matches_engine_formula() {
    assert_eq!(compute_shares_to_mint(500_000, 1_500_000, 1_700_000), Ok(441_176));
    assert_eq!(compute_shares_to_mint(7, 0, 123), Ok(7));
    assert_eq!(compute_shares_to_mint(0, 5, 5), Err(VaultError::InvalidAmount));
    assert_eq!(compute_shares_to_mint(5, 5, 0), Err(VaultError::InvalidVaultState));
    assert_eq!(
        compute_shares_to_mint(u64::MAX, u64::MAX, 1),
        Err(VaultError::MathOverflow)
    );
    assert_eq!(compute_shares_to_mint(1, 1, 2), Err(VaultError::InsufficientShares));
}

#[test]
fn compute_underlying_matches_engine_formula() {
    assert_eq!(compute_underlying_to_return(600, 1_500, 3_000), Ok(1_200));
    assert_eq!(compute_underlying_to_return(0, 5, 5), Err(VaultError::InvalidAmount));
    assert_eq!(compute_underlying_to_return(5, 0, 5), Err(VaultError::NoShares));
    assert_eq!(compute_underlying_to_return(5, 5, 0), Err(VaultError::EmptyVault));
    assert_eq!(
        compute_underlying_to_return(u64::MAX, 1, u64::MAX),
        Err(VaultError::MathOverflow)
    );
    assert_eq!(
        compute_underlying_to_return(1, 1_000, 500),
        Err(VaultError::InsufficientUnderlying)
    );
}

#[test]
fn vault_deposit_rejects_wrong_share_asset() {
    let vault = Vault {
        share_mint: AssetId { id: 7 },
        underlying_mint: AssetId { id: 3 },
        vault_token_account: AccountId { id: 9 },
        bump: 255,
    };
    let mut ledger = funded(0, 1_000, 0, 0);
    assert_eq!(
        deposit(&vault, AssetId { id: 8 }, &mut ledger, 100),
        Err(VaultError::InvalidShareAsset)
    );
    assert_eq!(ledger, funded(0, 1_000, 0, 0));
    // The zero-amount rejection wins over the asset mismatch.
    assert_eq!(
        deposit(&vault, AssetId { id: 8 }, &mut ledger, 0),
        Err(VaultError::InvalidAmount)
    );
    assert_eq!(deposit(&vault, AssetId { id: 7 }, &mut ledger, 100), Ok(100));
    assert_eq!(ledger.vault_underlying, 100);
}
