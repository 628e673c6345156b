//! Wormhole chain identifiers of the chains the bridge connects.
use vstd::prelude::*;

verus! {

/// Ethereum's Wormhole chain id.
pub const ETHEREUM: u32 = 2;

/// Stellar's Wormhole chain id: the source chain of outbound transfers and
/// the target chain of inbound ones.
pub const STELLAR: u32 = 61;

} // verus!
