//! The messages of the indexer's raw transaction stream.

use vstd::prelude::*;

verus! {

/// What the indexer keeps of one transaction: where it stands in the chain.
#[derive(Clone, Copy, Debug, PartialEq, Eq, Structural)]
pub struct Transaction {
    pub version: u64,
    pub epoch: u64,
    pub block_height: u64,
    pub timestamp_secs: u64,
}

#[derive(Clone, Copy, Debug, PartialEq, Eq, Structural)]
pub struct GetTransactionsRequest {
    /// Required; start version of current stream.
    pub starting_version: Option<u64>,
    /// Optional; number of transactions to return in current stream.
    /// If not present, return an infinite stream of transactions.
    pub transactions_count: Option<u64>,
    /// Optional; number of transactions in each `TransactionsResponse` for current stream.
    /// If not present, default to 1000. If larger than 1000, request will be rejected.
    pub batch_size: Option<u64>,
}

/// TransactionsResponse is a batch of transactions.
#[derive(Debug, PartialEq, Eq)]
pub struct TransactionsResponse {
    /// Required; transactions data.
    pub transactions: Vec<Transaction>,
    /// Required; chain id.
    pub chain_id: Option<u64>,
}

} // verus!
