//! The remote node's encoding of a confirmed transaction, as far as the
//! indexer reads it.
use vstd::prelude::*;
use crate::fetcher::tx::CompiledInstruction;

verus! {

/// Counts that split a message's accounts into signed/unsigned and writable/readonly.
#[derive(Debug, PartialEq, Eq, Clone, Copy, Structural)]
pub struct MessageHeader {
    pub num_required_signatures: u8,
    pub num_readonly_signed_accounts: u8,
    pub num_readonly_unsigned_accounts: u8,
}

/// A message in its raw (unparsed) form.
#[derive(Debug)]
pub struct RawMessage {
    pub header: MessageHeader,
    pub account_keys: Vec<String>,
    pub instructions: Vec<CompiledInstruction>,
}

/// A transaction message, raw or already parsed by the node.
#[derive(Debug)]
pub enum TxMessage {
    Raw(RawMessage),
    Parsed,
}

/// The transaction envelope: the JSON encoding, or any other encoding.
#[derive(Debug)]
pub enum TxEnvelope {
    Json { signatures: Vec<String>, message: TxMessage },
    Other,
}

/// A confirmed transaction as returned by the remote node.
#[derive(Debug)]
pub struct RawTransaction {
    pub transaction: TxEnvelope,
    /// Log output of the transaction, when the node exposes it.
    pub log_messages: Option<Vec<String>>,
    pub block_time: Option<i64>,
}

} // verus!
