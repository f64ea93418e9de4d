use vstd::prelude::*;

verus! {

/// Byte length of a token-account record on the asset ledger.
pub const TOKEN_ACCOUNT_LEN: usize = 72;

/// Offset of the holder's balance inside a token-account record.
pub const TOKEN_ACCOUNT_AMOUNT_OFFSET: usize = 64;

/// Byte length of the prefix of a mint record that covers the supply field.
pub const MINT_SUPPLY_END: usize = 44;

/// Offset of the total supply inside a mint record.
pub const MINT_SUPPLY_OFFSET: usize = 36;

/// The unsigned 64-bit quantity that eight little-endian bytes encode.
pub open spec fn u64_from_le_bytes(s: Seq<u8>) -> int
    recommends
        s.len() == 8,
{
    s[0] + s[1] * 0x100 + s[2] * 0x1_0000 + s[3] * 0x100_0000 + s[4] * 0x1_0000_0000 + s[5]
        * 0x100_0000_0000 + s[6] * 0x1_0000_0000_0000 + s[7] * 0x100_0000_0000_0000
}

/// Reads the unsigned 64-bit quantity stored little-endian at `offset`.
pub fn read_u64_le(data: &Vec<u8>, offset: usize) -> (r: u64)
    requires
        offset + 8 <= data@.len(),
    ensures
        r == u64_from_le_bytes(data@.subrange(offset as int, offset as int + 8)),
{
    let n: usize = data.len();
    assert(offset + 8 <= n);
    let b0 = data[offset] as u64;
    let b1 = data[offset + 1] as u64;
    let b2 = data[offset + 2] as u64;
    let b3 = data[offset + 3] as u64;
    let b4 = data[offset + 4] as u64;
    let b5 = data[offset + 5] as u64;
    let b6 = data[offset + 6] as u64;
    let b7 = data[offset + 7] as u64;
    b0 + b1 * 0x100 + b2 * 0x1_0000 + b3 * 0x100_0000 + b4 * 0x1_0000_0000 + b5
        * 0x100_0000_0000 + b6 * 0x1_0000_0000_0000 + b7 * 0x100_0000_0000_0000
}

/// The balance a raw token-account record holds, or `None` when the record
/// is too short to be one.
pub fn token_account_amount(data: &Vec<u8>) -> (r: Option<u64>)
    ensures
        data@.len() < TOKEN_ACCOUNT_LEN ==> r is None,
        data@.len() >= TOKEN_ACCOUNT_LEN ==> (r matches Some(v) && v == u64_from_le_bytes(
            data@.subrange(
                TOKEN_ACCOUNT_AMOUNT_OFFSET as int,
                TOKEN_ACCOUNT_AMOUNT_OFFSET as int + 8,
            ),
        )),
{
    if data.len() < TOKEN_ACCOUNT_LEN {
        return None;
    }
    Some(read_u64_le(data, TOKEN_ACCOUNT_AMOUNT_OFFSET))
}

/// The total supply a raw mint record holds, or `None` when the record is
/// too short to be one.
pub fn mint_supply(data: &Vec<u8>) -> (r: Option<u64>)
    ensures
        data@.len() < MINT_SUPPLY_END ==> r is None,
        data@.len() >= MINT_SUPPLY_END ==> (r matches Some(v) && v == u64_from_le_bytes(
            data@.subrange(MINT_SUPPLY_OFFSET as int, MINT_SUPPLY_OFFSET as int + 8),
        )),
{
    if data.len() < MINT_SUPPLY_END {
        return None;
    }
    Some(read_u64_le(data, MINT_SUPPLY_OFFSET))
}

} // verus!
