use vstd::prelude::*;

verus! {

/// Failures that the indexer itself detects while processing.
#[derive(Debug, PartialEq, Eq, Clone, Copy, Structural)]
pub enum NativeProcessingError {
    /// An instruction reached processing while no executor is installed.
    EmptyCb,
    TxWithoutInstructions,
    /// Kept for callers that match on it; instructions without accounts are
    /// legitimate on chain and are processed like any other.
    InstructionWithoutAccounts,
    /// An instruction names an account, or a program, that the transaction
    /// does not have, or the transaction has more instructions than ids.
    AccountIndexOutOfRange,
}

} // verus!
