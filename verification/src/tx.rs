//! The data the core reads of one pending transaction, and the immutable
//! configuration handed to every component at startup.
//!
//! Addresses are raw 20-byte strings and the transaction identifier a raw
//! 32-byte string; the chain-facing layer converts to and from its own
//! address and hash types at the boundary.

use vstd::prelude::*;
use crate::u256::Uint256;

verus! {

/// An immutable snapshot of a transaction proposed to the network.
pub struct PendingTransaction {
    /// Destination address (20 bytes), absent for contract creation.
    pub to: Option<Vec<u8>>,
    /// Sender address (20 bytes), when known.
    pub from: Option<Vec<u8>>,
    /// Call payload; its first four bytes select the contract function.
    pub input: Vec<u8>,
    /// Transferred value in the chain's smallest unit.
    pub value: Uint256,
    /// Transaction identifier (32 bytes).
    pub hash: Vec<u8>,
    /// Gas limit, when known.
    pub gas: Option<Uint256>,
    /// Legacy gas price, when known.
    pub gas_price: Option<Uint256>,
    /// Fee-market cap, when known.
    pub max_fee_per_gas: Option<Uint256>,
    /// Fee-market tip, when known.
    pub max_priority_fee_per_gas: Option<Uint256>,
}

/// Configuration read once at startup: the two monitored pool addresses
/// (20 bytes each), the minimum value a transaction must carry, the accepted
/// function selectors (4 bytes each), and the royalty tiering parameters.
pub struct Config {
    pub pool1: Vec<u8>,
    pub pool2: Vec<u8>,
    pub min_value: Uint256,
    pub selectors: Vec<Vec<u8>>,
    pub royalty_threshold: Uint256,
    pub default_bps: u64,
    pub large_bps: u64,
}

} // verus!
