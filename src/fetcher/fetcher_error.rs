use vstd::prelude::*;

verus! {

/// Failures that the indexer itself detects while fetching.
#[derive(Debug, PartialEq, Eq, Clone, Copy, Structural)]
pub enum NativeFetchingError {
    WrongEncoding,
    WrongMsgType,
    TxWithoutAccounts,
    TxWithoutSignatures,
    TxWithoutBlocktime,
    RpcCallLimit,
}

/// The fetch-time hook that consumed a transaction by stopping without a substitute.
#[derive(Debug, PartialEq, Eq, Clone, Copy, Structural)]
pub enum HookStage {
    RawTransaction,
    LogMessages,
    ParsedTransaction,
}

#[verifier::external_type_specification]
#[verifier::external_body]
pub struct ExParsePubkeyError(solana_program::pubkey::ParsePubkeyError);

#[verifier::external_type_specification]
#[verifier::external_body]
pub struct ExParseSignatureError(solana_signature::ParseSignatureError);

/// Every failure of the fetching stage.
#[derive(Debug)]
pub enum FetchingError {
    NativeFetcher(NativeFetchingError),
    ParseSignature(solana_signature::ParseSignatureError),
    ParsePubkey(solana_program::pubkey::ParsePubkeyError),
    /// A hook returned `Stop` without a substitute transaction.
    HookConsumed(HookStage),
}

/// Result of a fetching step.
pub type FetchingResult<T> = Result<T, FetchingError>;

} // verus!
