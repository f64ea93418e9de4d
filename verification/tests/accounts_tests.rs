use vault_pda::accounts::{mint_supply, read_u64_le, token_account_amount};
use vault_pda::error::VaultError;

#[test]
fn read_u64_le_decodes_little_endian() {
    let mut data = vec![0u8; 16];
    data[8..16].copy_from_slice(&0x0123_4567_89ab_cdefu64.to_le_bytes());
    assert_eq!(read_u64_le(&data, 8), 0x0123_4567_89ab_cdef);
    assert_eq!(read_u64_le(&data, 0), 0);
    let max = vec![0xffu8; 8];
    assert_eq!(read_u64_le(&max, 0), u64::MAX);
}

#[test]
fn token_account_amount_reads_offset_64() {
    let mut data = vec![0u8; 72];
    data[64..72].copy_from_slice(&987_654_321u64.to_le_bytes());
    assert_eq!(token_account_amount(&data), Some(987_654_321));
    // A longer record still carries the balance at the same offset.
    data.extend_from_slice(&[0xaa; 100]);
    assert_eq!(token_account_amount(&data), Some(987_654_321));
}

#[test]
fn token_account_amount_rejects_short_records() {
    assert_eq!(token_account_amount(&vec![0u8; 71]), None);
    assert_eq!(token_account_amount(&Vec::new()), None);
}

#[test]
fn mint_supply_reads_offset_36() {
    let mut data = vec![0u8; 82];
    data[36..44].copy_from_slice(&1_000_000u64.to_le_bytes());
    assert_eq!(mint_supply(&data), Some(1_000_000));
    assert_eq!(mint_supply(&vec![0u8; 43]), None);
}

#[test]
fn error_descriptions_are_distinct_and_nonempty() {
    let all = [
        VaultError::InvalidAmount,
        VaultError::InvalidShareAsset,
        VaultError::InvalidVaultState,
        VaultError::MathOverflow,
        VaultError::InsufficientShares,
        VaultError::InsufficientUnderlying,
        VaultError::NoShares,
        VaultError::EmptyVault,
        VaultError::InsufficientFunds,
        VaultError::Unauthorized,
        VaultError::AlreadyExists,
        VaultError::NotFound,
    ];
    for (i, a) in all.iter().enumerate() {
        assert!(!a.describe().is_empty());
        for b in all.iter().skip(i + 1) {
            assert_ne!(a.describe(), b.describe());
        }
    }
    assert_eq!(
        VaultError::MathOverflow.describe(),
        "math operation overflow"
    );
}
