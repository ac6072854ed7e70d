use vstd::prelude::*;
use crate::fetcher::tx::ParsedAccount;

verus! {

/// One program invocation inside a transaction.
#[derive(Debug)]
pub struct Instruction {
    /// Position in the transaction.
    pub id: u8,
    /// Signature hash of the owning transaction.
    pub tx_hash: String,
    /// Key of the invoked program.
    pub program_id: String,
    /// Time of the transaction's block.
    pub blocktime: i64,
    /// The instruction's accounts, taken from the transaction's accounts.
    pub account_keys: Vec<ParsedAccount>,
    /// The program input, base-58 encoded.
    pub data: String,
}

impl Instruction {
    pub fn new(
        id: u8,
        tx_hash: String,
        program_id: String,
        blocktime: i64,
        account_keys: Vec<ParsedAccount>,
        data: String,
    ) -> (r: Instruction)
        ensures
            r == (Instruction { id, tx_hash, program_id, blocktime, account_keys, data }),
    {
        Instruction { id, tx_hash, program_id, blocktime, account_keys, data }
    }
}

} // verus!
