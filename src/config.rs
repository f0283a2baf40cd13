//! Node configuration and small result types shared with the node.

use vstd::prelude::*;

verus! {

/// Command-line settings of the oracle service.
#[derive(Clone, Debug, PartialEq, Eq)]
pub struct AvnCliConfiguration {
    pub avn_port: Option<String>,
    pub ethereum_node_urls: Vec<String>,
    /// Reject extrinsics before they enter the pool.
    pub enable_transaction_filter: bool,
    /// When the filter is enabled, log each rejected extrinsic.
    pub transaction_filter_log_rejections: bool,
}

/// Why an Ethereum key could not be read.
#[derive(Clone, Copy, Debug, PartialEq, Eq)]
pub enum EthUtilsError {
    InvalidHex,
    InvalidLength,
    InvalidSecretKey,
}

/// The verdict of the transaction filter on one extrinsic.
#[derive(Clone, Copy, Debug, PartialEq, Eq)]
pub enum FilterResult {
    Allowed,
    Banned,
}

impl FilterResult {
    /// Whether the extrinsic must be rejected.
    pub fn is_banned(&self) -> (r: bool)
        ensures
            r == !(*self is Allowed),
    {
        !matches!(self, FilterResult::Allowed)
    }
}

} // verus!
