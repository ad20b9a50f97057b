use vstd::prelude::*;

verus! {

/// Bytes of the account discriminator that prefixes every account's data.
pub const DISCRIMINATOR: usize = 8;

/// Serialized size of a `bool`.
pub const BOOL_SIZE: usize = 1;

/// Serialized size of an address.
pub const PUBKEY_SIZE: usize = 32;

/// Serialized size of a `u8`.
pub const U8_SIZE: usize = 1;

/// Serialized size of a `u16`.
pub const U16_SIZE: usize = 2;

/// Serialized size of a `u32`.
pub const U32_SIZE: usize = 4;

/// Serialized size of a `u64`.
pub const U64_SIZE: usize = 8;

/// Serialized size of an `i64`.
pub const I64_SIZE: usize = 8;

/// Space for a string of at most 10 bytes (length prefix and contents).
pub const STRING_MAX_10_CHAR_SIZE: usize = 4 + 10;

/// Space for a string of at most 32 bytes (length prefix and contents).
pub const STRING_MAX_32_CHAR_SIZE: usize = 4 + 32;

/// Space for a string of at most 100 bytes (length prefix and contents).
pub const STRING_MAX_100_CHAR_SIZE: usize = 4 + 100;

/// Percentages are expressed in basis points: this value stands for 100%.
pub const PERCENTAGE_DENOMINATOR: u16 = 10000;

/// Virtual token reserves of the bonding curve used to estimate a purchase.
pub const DEFAULT_TOKEN_RESERVES: u64 = 1_073_000_000_000_000;

/// Virtual SOL reserves (in lamports) of the bonding curve used to estimate a purchase.
pub const DEFAULT_SOL_RESERVES: u64 = 30_000_000_000;

/// Lamports a creator deposits when opening a campaign, as set when the config is created.
pub const INITIAL_DEPOSIT_AMOUNT: u64 = 1_000_000_000;

} // verus!
