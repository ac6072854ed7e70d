//! A durable, resumable indexer for the instructions of one on-chain program.
//!
//! The library holds the indexer's decisions: the retry policy, the
//! decomposition of a fetched transaction into the indexer's own model, the
//! expansion into instructions, the steps of the fetching and processing
//! pipelines, and the store's semantics. The host performs the remote calls,
//! the durable storage and the hooks, and hands their results back to these
//! steps.
pub mod db;
pub mod executor;
pub mod fetcher;
pub mod indexer;
pub mod keys;
pub mod processor;
pub mod utils;

pub use db::memory_store::MemoryStore;
pub use executor::{ControlFlowWithData, ExecutorControlFlow};
pub use fetcher::decompose::create_tx;
pub use fetcher::fetcher_error::{FetchingError, FetchingResult, HookStage, NativeFetchingError};
pub use fetcher::fetching_manager::{
    BatchAction, BatchEvent, BatchFetch, FetchAction, FetchEvent, FetchingManager, PageAction,
    PageEvent, SignatureQuery, SignaturesFetch, TxFetch, TxHookResult,
};
pub use fetcher::fetching_settings::FetchingSettings;
pub use fetcher::raw::{MessageHeader, RawMessage, RawTransaction, TxEnvelope, TxMessage};
pub use fetcher::tx::{CompiledInstruction, IndexingStatus, ParsedAccount, Tx};
pub use indexer::indexer_report::{Availability, ResponseLabel, RpcOutcome};
pub use processor::instruction::Instruction;
pub use processor::processing_manager::{ProcessAction, ProcessEvent, TxProcessing};
pub use processor::processor_error::NativeProcessingError;
pub use utils::{fibonacci, is_acc_signer, is_acc_writable};
