use vstd::prelude::*;

verus! {

/// Largest metadata URI, in UTF-8 bytes.
pub const MAX_METADATA_URI_LENGTH: usize = 200;

/// Largest cross-chain payload, in bytes.
pub const MAX_CROSS_CHAIN_DATA_LENGTH: usize = 1000;

/// Largest remote recipient address, in bytes.
pub const MAX_RECIPIENT_ADDRESS_LENGTH: usize = 100;

/// Largest number of chains the registry may list.
pub const MAX_SUPPORTED_CHAINS: usize = 13;

/// Size of the placeholder claim of a remote owner in a verification record.
pub const REMOTE_OWNER_LENGTH: usize = 100;

/// Chain identifiers known to the gateway.
pub const ZETA_CHAIN_ID_SOLANA: u64 = 1;
pub const ZETA_CHAIN_ID_ETHEREUM: u64 = 2;
pub const ZETA_CHAIN_ID_BSC: u64 = 3;
pub const ZETA_CHAIN_ID_POLYGON: u64 = 4;
pub const ZETA_CHAIN_ID_AVALANCHE: u64 = 5;
pub const ZETA_CHAIN_ID_ARBITRUM: u64 = 6;
pub const ZETA_CHAIN_ID_OPTIMISM: u64 = 7;
pub const ZETA_CHAIN_ID_BASE: u64 = 8;
pub const ZETA_CHAIN_ID_LINEA: u64 = 9;
pub const ZETA_CHAIN_ID_MANTLE: u64 = 10;
pub const ZETA_CHAIN_ID_SCROLL: u64 = 11;
pub const ZETA_CHAIN_ID_BERACHAIN: u64 = 12;
pub const ZETA_CHAIN_ID_BITCOIN: u64 = 13;

/// The chain this ledger runs on.
pub const LOCAL_CHAIN_ID: u64 = ZETA_CHAIN_ID_SOLANA;

/// Seconds that must pass between two registry updates.
pub const MINIMUM_GATEWAY_UPDATE_INTERVAL: i64 = 60;

/// Registry version written at initialization; updates may not go below the
/// stored version.
pub const GATEWAY_VERSION: u8 = 1;

/// First token identifier issued, so that issued identifiers are never zero.
pub const TOKEN_ID_OFFSET: u64 = 1000000;

} // verus!
