use vstd::prelude::*;

verus! {

/// Chain ID of the local Anvil development network used by Aligned devnet.
pub const ANVIL_CHAIN_ID: u64 = 31337;

/// Chain ID of the Holesky testnet.
pub const HOLESKY_CHAIN_ID: u64 = 17000;

/// Chain ID of the Hoodi testnet.
pub const HOODI_CHAIN_ID: u64 = 560048;

/// Chain ID of the Sepolia testnet.
pub const SEPOLIA_CHAIN_ID: u64 = 11155111;

/// Chain ID of Ethereum mainnet.
pub const MAINNET_CHAIN_ID: u64 = 1;

/// Size of a Mina state hash in bytes.
pub const MINA_HASH_SIZE: usize = 32;

/// Number of blocks in a bridged state proof window: the oldest block of the
/// window sits exactly this many blocks below the window's tip, inclusive.
pub const BRIDGE_TRANSITION_FRONTIER_LEN: usize = 16;

/// Number of recent blocks for which the Mina daemon can serve state queries.
pub const MINA_DAEMON_MAX_QUERYABLE_BLOCKS: usize = 290;

} // verus!
