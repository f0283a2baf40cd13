//! The data that the external chain hands back: logs, receipts, and the
//! filter that selects logs.

use vstd::prelude::*;

use crate::bytes::{ChainAddress, ChainHash};

verus! {

/// One log entry emitted by a contract on the external chain.
/// `topics[0]`, where present, is the event signature.
pub struct ChainLog {
    pub address: ChainAddress,
    pub topics: Vec<ChainHash>,
    pub data: Vec<u8>,
    pub transaction_hash: Option<ChainHash>,
    pub block_number: Option<u64>,
}

/// A transaction receipt: its block, where known, and the raw receipt as JSON.
pub struct ChainReceipt {
    pub block_number: Option<u64>,
    pub json: Vec<u8>,
}

/// Selects logs in the inclusive block range `from_block..=to_block`.
/// An empty address list matches any emitter; each topic position is either
/// unconstrained (`None`) or matches any of the listed values.
pub struct LogFilter {
    pub from_block: u64,
    pub to_block: u64,
    pub addresses: Vec<ChainAddress>,
    pub topics: [Option<Vec<ChainHash>>; 4],
}

} // verus!
