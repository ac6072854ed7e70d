use vstd::prelude::*;

verus! {

/// Durable indexing status of a transaction.
#[derive(Debug, PartialEq, Eq, Clone, Copy, Structural)]
pub enum IndexingStatus {
    Pending,
    Indexed,
}

/// An account of a transaction with the flags the chain derives for it.
#[derive(Debug)]
pub struct ParsedAccount {
    pub pubkey: String,
    pub writable: bool,
    pub signer: bool,
}

/// A program invocation as compiled into a transaction message.
#[derive(Debug)]
pub struct CompiledInstruction {
    /// Index of the invoked program's key in the transaction's accounts.
    pub program_id_index: u8,
    /// Indices of the instruction's accounts in the transaction's accounts.
    pub accounts: Vec<u8>,
    /// The program input, base-58 encoded.
    pub data: String,
}

/// One confirmed transaction, as the indexer keeps it.
#[derive(Debug)]
pub struct Tx {
    /// Transaction signature hash.
    pub hash: String,
    /// Time of the transaction's block, in seconds since the epoch.
    pub blocktime: i64,
    /// The instructions invoked by the transaction, in order.
    pub instructions: Vec<CompiledInstruction>,
    /// The accounts used by the transaction, in order.
    pub account_keys: Vec<ParsedAccount>,
    /// Internal indexing status.
    pub indexing_status: IndexingStatus,
    /// When the indexer first recorded the transaction, in seconds since the epoch.
    pub indexing_timestamp: i64,
}

impl Tx {
    /// A pending transaction, first recorded at `indexing_timestamp`.
    pub fn new(
        hash: String,
        blocktime: i64,
        instructions: Vec<CompiledInstruction>,
        account_keys: Vec<ParsedAccount>,
        indexing_timestamp: i64,
    ) -> (r: Tx)
        ensures
            r.hash == hash,
            r.blocktime == blocktime,
            r.instructions == instructions,
            r.account_keys == account_keys,
            r.indexing_status == IndexingStatus::Pending,
            r.indexing_timestamp == indexing_timestamp,
    {
        Tx {
            hash,
            blocktime,
            instructions,
            account_keys,
            indexing_status: IndexingStatus::Pending,
            indexing_timestamp,
        }
    }
}

} // verus!
