//! The fetching stage: discovery queries, and the steps that fetch a page of
//! signatures and each of their transactions.
use vstd::prelude::*;
use crate::executor::{ControlFlowWithData, ExecutorControlFlow};
use crate::fetcher::decompose::{create_tx, create_tx_post, message_failure};
use crate::fetcher::fetcher_error::{FetchingError, FetchingResult, HookStage, NativeFetchingError};
use crate::fetcher::fetching_settings::{retry_delay_ms, FetchingSettings, MAX_TRANSACTION_BATCH_SIZE};
use crate::fetcher::raw::RawTransaction;
use crate::fetcher::tx::{IndexingStatus, Tx};
use crate::keys::{decode_pubkey, decoded_pubkey, decoded_signature, parse_signature};
use crate::indexer::indexer_report::{ReportUpdate, RpcOutcome, report_for};

verus! {

/// What a fetch-time hook returns: a decision, and for `Stop` an optional
/// substitute result.
pub type TxHookResult = ControlFlowWithData<Option<FetchingResult<Tx>>>;

/// The parameters of one discovery call.
#[derive(Debug)]
pub struct SignatureQuery {
    /// Newest signature to start below, if any, as its 64 bytes.
    pub before: Option<[u8; 64]>,
    /// Oldest signature to stop at, if any, as its 64 bytes.
    pub until: Option<[u8; 64]>,
    /// Number of signatures asked for.
    pub limit: usize,
}

/// What the host reports back while asking for a page of signatures.
#[derive(Debug)]
pub enum PageEvent {
    /// The discovery call failed with this outcome.
    PageFailed(RpcOutcome),
    /// The node returned this page, newest first.
    PageReturned(Vec<String>),
}

/// What the host does next while asking for a page of signatures.
#[derive(Debug)]
pub enum PageAction {
    /// Make the discovery call.
    RequestPage,
    /// Sleep this many milliseconds, then make the discovery call again.
    RetryAfter(u64),
    /// Discovery is over, with this page or failure.
    Done(FetchingResult<Vec<String>>),
    /// The report did not match the pending action; nothing changed.
    Unexpected,
}

/// The retry loop around one discovery call.
#[derive(Debug)]
pub struct SignaturesFetch {
    pub fetching_settings: FetchingSettings,
    /// Number of failed calls so far.
    pub attempt: u64,
    pub done: bool,
}

/// One step of discovery: a failure retries after the policy's delay until
/// the retry limit, a page ends discovery with that page unchanged.
pub open spec fn page_transition(s: SignaturesFetch, ev: PageEvent, t: SignaturesFetch, a: PageAction) -> bool {
    &&& t.fetching_settings == s.fetching_settings
    &&& if s.done {
        a is Unexpected && t == s
    } else {
        match ev {
            PageEvent::PageFailed(_) => {
                let n = (s.attempt + 1) as u64;
                if n >= s.fetching_settings.retry_limit {
                    t.done && a matches PageAction::Done(
                        Err(FetchingError::NativeFetcher(NativeFetchingError::RpcCallLimit)),
                    )
                } else {
                    !t.done && t.attempt == n && a == PageAction::RetryAfter(
                        retry_delay_ms(s.fetching_settings.rpc_request_timeout, n),
                    )
                }
            },
            PageEvent::PageReturned(p) => t.done && a == PageAction::Done(Ok(p)),
        }
    }
}

impl SignaturesFetch {
    /// The loop's invariant.
    pub open spec fn wf(&self) -> bool {
        !self.done ==> self.attempt == 0 || self.attempt < self.fetching_settings.retry_limit
    }

    /// Takes the host's report on the pending call and returns the next action.
    pub fn step(&mut self, ev: PageEvent) -> (a: PageAction)
        requires
            old(self).wf(),
        ensures
            final(self).wf(),
            page_transition(*old(self), ev, *final(self), a),
    {
        if self.done {
            return PageAction::Unexpected;
        }
        match ev {
            PageEvent::PageFailed(_) => {
                let n = self.attempt + 1;
                match self.fetching_settings.retry_delay(n) {
                    Ok(d) => {
                        self.attempt = n;
                        PageAction::RetryAfter(d)
                    },
                    Err(e) => {
                        self.done = true;
                        PageAction::Done(Err(e))
                    },
                }
            },
            PageEvent::PageReturned(p) => {
                self.done = true;
                PageAction::Done(Ok(p))
            },
        }
    }
}

/// Whether `parsed` holds the bytes of the signature `given`, or nothing when
/// nothing is given.
pub open spec fn bound_of(given: Option<String>, parsed: Option<[u8; 64]>) -> bool {
    match given {
        Some(g) => parsed matches Some(p) && decoded_signature(g@) == Some(p@),
        None => parsed is None,
    }
}

impl PageEvent {
    /// The report that a discovery call's result implies: counted under its
    /// response code, with the liveness that follows.
    pub fn report(&self) -> (r: ReportUpdate)
        ensures
            r == match self {
                PageEvent::PageFailed(o) => report_for(*o),
                PageEvent::PageReturned(_) => report_for(RpcOutcome::Success),
            },
    {
        match self {
            PageEvent::PageFailed(o) => ReportUpdate::for_outcome(*o),
            PageEvent::PageReturned(_) => ReportUpdate::for_outcome(RpcOutcome::Success),
        }
    }
}

impl FetchEvent {
    /// The report that a transaction request's result implies, if the event is
    /// one: counted under its response code, with the liveness that follows.
    pub fn report(&self) -> (r: Option<ReportUpdate>)
        ensures
            r == match self {
                FetchEvent::TxFailed(o) => Some(report_for(*o)),
                FetchEvent::TxReturned(_, _) => Some(report_for(RpcOutcome::Success)),
                _ => None,
            },
    {
        match self {
            FetchEvent::TxFailed(o) => Some(ReportUpdate::for_outcome(*o)),
            FetchEvent::TxReturned(_, _) => Some(ReportUpdate::for_outcome(RpcOutcome::Success)),
            _ => None,
        }
    }
}

/// The fetching stage of one indexer.
#[derive(Debug)]
pub struct FetchingManager {
    /// The key of the indexed program.
    pub program_id: [u8; 32],
    pub fetching_settings: FetchingSettings,
    /// Whether an executor is installed to receive the fetch-time hooks.
    pub has_executor: bool,
}

/// How a fetch-time hook's decision redirects the fetch of a transaction.
#[derive(Debug)]
pub enum HookDecision {
    /// Fetch the transaction again.
    Refetch,
    /// Go on to the next step.
    Proceed,
    /// End the fetch with this result.
    Finish(FetchingResult<Tx>),
}

/// The decision for hook result `h` at `stage`: `Skip` refetches, `Pass`
/// proceeds, `Stop` ends with the substitute, or with a hook-consumed error
/// when there is none.
pub open spec fn hook_decision_spec(h: TxHookResult, stage: HookStage, d: HookDecision) -> bool {
    match h.control_flow {
        ExecutorControlFlow::Skip => d is Refetch,
        ExecutorControlFlow::Pass => d is Proceed,
        ExecutorControlFlow::Stop => match h.data {
            Some(res) => d == HookDecision::Finish(res),
            None => d matches HookDecision::Finish(Err(FetchingError::HookConsumed(s))) && s == stage,
        },
    }
}

/// Applies the fetch-time hook semantics to a hook's result.
pub fn hook_decision(h: TxHookResult, stage: HookStage) -> (d: HookDecision)
    ensures
        hook_decision_spec(h, stage, d),
{
    match h.control_flow {
        ExecutorControlFlow::Skip => HookDecision::Refetch,
        ExecutorControlFlow::Pass => HookDecision::Proceed,
        ExecutorControlFlow::Stop => match h.data {
            Some(res) => HookDecision::Finish(res),
            None => HookDecision::Finish(Err(FetchingError::HookConsumed(stage))),
        },
    }
}

/// Where the fetch of one transaction stands.
#[derive(Debug, PartialEq, Eq, Clone, Copy, Structural)]
pub enum FetchStage {
    /// Waiting for the remote node's answer to the transaction request.
    AwaitTx,
    /// Waiting for the raw-transaction hook.
    AwaitRawHook,
    /// Waiting for the log-messages hook.
    AwaitLogHook,
    /// Waiting for the parsed-transaction hook.
    AwaitParsedHook,
    /// Waiting for the transaction to be recorded as pending.
    AwaitInsert,
    /// The fetch is over.
    Done,
}

/// What the host reports back while fetching a transaction.
#[derive(Debug)]
pub enum FetchEvent {
    /// The transaction request failed with this outcome.
    TxFailed(RpcOutcome),
    /// The remote node returned the transaction; the second field is the
    /// current time in seconds since the epoch.
    TxReturned(RawTransaction, i64),
    /// The pending hook's result.
    Hook(TxHookResult),
    /// The transaction has been recorded as pending.
    Inserted,
}

/// What the host does next while fetching a transaction.
#[derive(Debug)]
pub enum FetchAction {
    /// Request the transaction from the remote node.
    RequestTx,
    /// Sleep this many milliseconds, then request the transaction again.
    RetryAfter(u64),
    /// Call the raw-transaction hook on what the node returned.
    CallRawHook,
    /// Call the log-messages hook with these messages.
    CallLogHook(Vec<String>),
    /// Call the parsed-transaction hook on the built transaction.
    CallParsedHook,
    /// Record the built transaction as pending.
    InsertTx,
    /// The fetch is over, with this result.
    Done(FetchingResult<Tx>),
    /// The report did not match the pending action; nothing changed.
    Unexpected,
}

/// The fetch of one transaction: a retry loop around the transaction request,
/// the three fetch-time hooks, decomposition and recording.
#[derive(Debug)]
pub struct TxFetch {
    pub fetching_settings: FetchingSettings,
    pub has_executor: bool,
    /// Number of failed requests so far.
    pub attempt: u64,
    pub stage: FetchStage,
    /// What the node returned, while its hooks run.
    pub raw: Option<RawTransaction>,
    /// The built transaction, while its hook runs and it is recorded.
    pub tx: Option<Tx>,
    /// When the node's answer arrived, in seconds since the epoch.
    pub now: i64,
}

/// The state of a fetch after what the node returned, or a refetch.
pub open spec fn fresh(s: TxFetch, t: TxFetch) -> bool {
    t.attempt == s.attempt && t.raw is None && t.tx is None && t.stage == FetchStage::AwaitTx
}

/// The move to decomposition of `raw`: the hook on the built transaction when
/// there is an executor, else its recording; or the end of the fetch with the
/// decomposition's failure.
pub open spec fn after_create(s: TxFetch, raw: RawTransaction, now: i64, t: TxFetch, a: FetchAction) -> bool {
    &&& t.attempt == s.attempt
    &&& t.raw is None
    &&& match a {
        FetchAction::Done(Err(e)) => t.stage == FetchStage::Done && create_tx_post(raw, now, Err(e)),
        FetchAction::CallParsedHook => s.has_executor && t.stage == FetchStage::AwaitParsedHook
            && (t.tx matches Some(tx) && create_tx_post(raw, now, Ok(tx))),
        FetchAction::InsertTx => !s.has_executor && t.stage == FetchStage::AwaitInsert
            && (t.tx matches Some(tx) && create_tx_post(raw, now, Ok(tx))),
        _ => false,
    }
}

/// The move past the raw-transaction hook: the log hook when the node gave
/// log messages, else decomposition.
pub open spec fn after_raw_hook(s: TxFetch, raw: RawTransaction, t: TxFetch, a: FetchAction) -> bool {
    match raw.log_messages {
        Some(msgs) => a == FetchAction::CallLogHook(msgs) && t.stage == FetchStage::AwaitLogHook
            && t.attempt == s.attempt && t.now == s.now && t.raw == Some(
            RawTransaction { log_messages: None, ..raw },
        ),
        None => after_create(s, raw, s.now, t, a),
    }
}

/// The end of a fetch on a hook's `Finish`.
pub open spec fn finished(t: TxFetch, a: FetchAction, d: HookDecision) -> bool {
    &&& t.stage == FetchStage::Done
    &&& d matches HookDecision::Finish(res) && a == FetchAction::Done(res)
}

/// One step of a fetch: from state `s` and the host's report `ev` to state `t`
/// and the next action `a`. A report that the state does not wait for
/// changes nothing.
pub open spec fn fetch_transition(s: TxFetch, ev: FetchEvent, t: TxFetch, a: FetchAction) -> bool {
    match (s.stage, ev) {
        (FetchStage::AwaitTx, FetchEvent::TxFailed(_)) => {
            let n = (s.attempt + 1) as u64;
            if n >= s.fetching_settings.retry_limit {
                t.stage == FetchStage::Done && a matches FetchAction::Done(
                    Err(FetchingError::NativeFetcher(NativeFetchingError::RpcCallLimit)),
                )
            } else {
                &&& t.stage == FetchStage::AwaitTx && t.attempt == n && t.raw is None
                &&& a == FetchAction::RetryAfter(retry_delay_ms(s.fetching_settings.rpc_request_timeout, n))
            }
        },
        (FetchStage::AwaitTx, FetchEvent::TxReturned(raw, now)) => if s.has_executor {
            a is CallRawHook && t.stage == FetchStage::AwaitRawHook && t.raw == Some(raw)
                && t.attempt == s.attempt && t.now == now
        } else {
            after_create(s, raw, now, t, a)
        },
        (FetchStage::AwaitRawHook, FetchEvent::Hook(h)) => exists|d: HookDecision|
            hook_decision_spec(h, HookStage::RawTransaction, d) && match d {
                HookDecision::Refetch => fresh(s, t) && a is RequestTx,
                HookDecision::Proceed => s.raw matches Some(raw) && after_raw_hook(s, raw, t, a),
                HookDecision::Finish(_) => finished(t, a, d),
            },
        (FetchStage::AwaitLogHook, FetchEvent::Hook(h)) => exists|d: HookDecision|
            hook_decision_spec(h, HookStage::LogMessages, d) && match d {
                HookDecision::Refetch => fresh(s, t) && a is RequestTx,
                HookDecision::Proceed => s.raw matches Some(raw) && after_create(s, raw, s.now, t, a),
                HookDecision::Finish(_) => finished(t, a, d),
            },
        (FetchStage::AwaitParsedHook, FetchEvent::Hook(h)) => exists|d: HookDecision|
            hook_decision_spec(h, HookStage::ParsedTransaction, d) && match d {
                HookDecision::Refetch => fresh(s, t) && a is RequestTx,
                HookDecision::Proceed => a is InsertTx && t.stage == FetchStage::AwaitInsert && t.tx
                    == s.tx && t.attempt == s.attempt,
                HookDecision::Finish(_) => finished(t, a, d),
            },
        (FetchStage::AwaitInsert, FetchEvent::Inserted) => t.stage == FetchStage::Done && (s.tx matches Some(
            tx,
        ) && a == FetchAction::Done(Ok(tx))),
        _ => a is Unexpected && t == s,
    }
}

impl TxFetch {
    /// The fetch's invariant.
    pub open spec fn wf(&self) -> bool {
        &&& self.stage != FetchStage::Done ==> self.attempt == 0 || self.attempt
            < self.fetching_settings.retry_limit
        &&& (self.stage == FetchStage::AwaitRawHook || self.stage == FetchStage::AwaitLogHook) <==> self.raw is Some
        &&& (self.stage == FetchStage::AwaitParsedHook || self.stage == FetchStage::AwaitInsert) ==> self.tx is Some
        &&& (self.stage == FetchStage::AwaitRawHook || self.stage == FetchStage::AwaitLogHook
            || self.stage == FetchStage::AwaitParsedHook) ==> self.has_executor
        &&& self.tx matches Some(tx) ==> tx.indexing_status == IndexingStatus::Pending
    }

    fn create(&mut self, raw: RawTransaction, now: i64) -> (a: FetchAction)
        requires
            old(self).attempt == 0 || old(self).attempt < old(self).fetching_settings.retry_limit,
        ensures
            final(self).wf(),
            final(self).fetching_settings == old(self).fetching_settings,
            final(self).has_executor == old(self).has_executor,
            after_create(*old(self), raw, now, *final(self), a),
            final(self).now == old(self).now,
    {
        self.raw = None;
        self.tx = None;
        match create_tx(raw, now) {
            Ok(tx) => {
                self.tx = Some(tx);
                if self.has_executor {
                    self.stage = FetchStage::AwaitParsedHook;
                    FetchAction::CallParsedHook
                } else {
                    self.stage = FetchStage::AwaitInsert;
                    FetchAction::InsertTx
                }
            },
            Err(e) => {
                self.stage = FetchStage::Done;
                FetchAction::Done(Err(e))
            },
        }
    }

    fn refetch(&mut self) -> (a: FetchAction)
        requires
            old(self).wf(),
            old(self).stage != FetchStage::Done,
        ensures
            final(self).wf(),
            final(self).fetching_settings == old(self).fetching_settings,
            final(self).has_executor == old(self).has_executor,
            fresh(*old(self), *final(self)),
            a is RequestTx,
    {
        self.raw = None;
        self.tx = None;
        self.stage = FetchStage::AwaitTx;
        FetchAction::RequestTx
    }

    /// Takes the host's report on the pending action and returns the next action.
    pub fn step(&mut self, ev: FetchEvent) -> (a: FetchAction)
        requires
            old(self).wf(),
        ensures
            final(self).wf(),
            final(self).fetching_settings == old(self).fetching_settings,
            final(self).has_executor == old(self).has_executor,
            fetch_transition(*old(self), ev, *final(self), a),
    {
        match (self.stage, ev) {
            (FetchStage::AwaitTx, FetchEvent::TxFailed(_)) => {
                let n = self.attempt + 1;
                match self.fetching_settings.retry_delay(n) {
                    Ok(d) => {
                        self.attempt = n;
                        FetchAction::RetryAfter(d)
                    },
                    Err(e) => {
                        self.stage = FetchStage::Done;
                        FetchAction::Done(Err(e))
                    },
                }
            },
            (FetchStage::AwaitTx, FetchEvent::TxReturned(raw, now)) => {
                if self.has_executor {
                    self.now = now;
                    self.raw = Some(raw);
                    self.stage = FetchStage::AwaitRawHook;
                    FetchAction::CallRawHook
                } else {
                    self.create(raw, now)
                }
            },
            (FetchStage::AwaitRawHook, FetchEvent::Hook(h)) => {
                let d = hook_decision(h, HookStage::RawTransaction);
                match d {
                    HookDecision::Refetch => self.refetch(),
                    HookDecision::Proceed => {
                        let raw = self.raw.take().unwrap();
                        let RawTransaction { transaction, log_messages, block_time } = raw;
                        match log_messages {
                            Some(msgs) => {
                                self.raw = Some(RawTransaction { transaction, log_messages: None, block_time });
                                self.stage = FetchStage::AwaitLogHook;
                                FetchAction::CallLogHook(msgs)
                            },
                            None => {
                                let now = self.now;
                                self.create(RawTransaction { transaction, log_messages: None, block_time }, now)
                            },
                        }
                    },
                    HookDecision::Finish(res) => {
                        self.raw = None;
                        self.stage = FetchStage::Done;
                        FetchAction::Done(res)
                    },
                }
            },
            (FetchStage::AwaitLogHook, FetchEvent::Hook(h)) => {
                let d = hook_decision(h, HookStage::LogMessages);
                match d {
                    HookDecision::Refetch => self.refetch(),
                    HookDecision::Proceed => {
                        let raw = self.raw.take().unwrap();
                        let now = self.now;
                        self.create(raw, now)
                    },
                    HookDecision::Finish(res) => {
                        self.raw = None;
                        self.stage = FetchStage::Done;
                        FetchAction::Done(res)
                    },
                }
            },
            (FetchStage::AwaitParsedHook, FetchEvent::Hook(h)) => {
                let d = hook_decision(h, HookStage::ParsedTransaction);
                match d {
                    HookDecision::Refetch => self.refetch(),
                    HookDecision::Proceed => {
                        self.stage = FetchStage::AwaitInsert;
                        FetchAction::InsertTx
                    },
                    HookDecision::Finish(res) => {
                        self.tx = None;
                        self.stage = FetchStage::Done;
                        FetchAction::Done(res)
                    },
                }
            },
            (FetchStage::AwaitInsert, FetchEvent::Inserted) => {
                let tx = self.tx.take().unwrap();
                self.stage = FetchStage::Done;
                FetchAction::Done(Ok(tx))
            },
            (_, _) => FetchAction::Unexpected,
        }
    }

    /// The transaction built by the fetch, while its hook runs or it is recorded.
    pub fn parsed(&self) -> (r: Option<&Tx>)
        ensures
            r == match self.tx {
                Some(tx) => Some(&tx),
                None => None::<&Tx>,
            },
    {
        match &self.tx {
            Some(tx) => Some(tx),
            None => None,
        }
    }
}

/// Where the fetch of a page of signatures stands.
#[derive(Debug, PartialEq, Eq, Clone, Copy, Structural)]
pub enum BatchStage {
    /// Waiting for the signature hook on the current signature.
    AwaitSignatureHook,
    /// Waiting to learn whether the current signature is fully indexed.
    AwaitRecorded,
    /// Waiting for the fetch of the current signature's transaction.
    AwaitTx,
    /// The page is done.
    Done,
}

/// What the host reports back while fetching a page.
#[derive(Debug)]
pub enum BatchEvent {
    /// The signature hook's decision on the current signature.
    SignatureHook(ExecutorControlFlow),
    /// Whether the current signature's transaction is fully indexed.
    Recorded(bool),
    /// The current signature's transaction, fetched.
    Fetched(Tx),
}

/// What the host does next while fetching a page.
#[derive(Debug)]
pub enum BatchAction {
    /// Call the signature hook on signature `i` of the page.
    CallSignatureHook(usize),
    /// Ask the store whether signature `i`'s transaction is fully indexed.
    CheckRecorded(usize),
    /// Fetch the transaction of signature `i`, whose 64 bytes are given.
    FetchTx(usize, [u8; 64]),
    /// The page is done; the fetched transactions are in `txs`.
    Done,
    /// The page failed.
    Fail(FetchingError),
    /// The report did not match the pending action; nothing changed.
    Unexpected,
}

/// The fetch of a page of signatures, one at a time and in order.
#[derive(Debug)]
pub struct BatchFetch {
    /// The page's signatures, newest first.
    pub signatures: Vec<String>,
    pub has_executor: bool,
    /// Position of the current signature.
    pub index: usize,
    pub stage: BatchStage,
    /// The transactions fetched so far, in page order.
    pub txs: Vec<Tx>,
}

/// The move to signature `i`: its hook when there is an executor, else the
/// recorded check; the page is done past its last signature.
pub open spec fn at_signature(s: BatchFetch, i: int, t: BatchFetch, a: BatchAction) -> bool {
    &&& t.index == i
    &&& if i == s.signatures@.len() {
        t.stage == BatchStage::Done && a is Done
    } else if s.has_executor {
        t.stage == BatchStage::AwaitSignatureHook && a == BatchAction::CallSignatureHook(i as usize)
    } else {
        t.stage == BatchStage::AwaitRecorded && a == BatchAction::CheckRecorded(i as usize)
    }
}

/// One step of a page fetch: from state `s` and the host's report `ev` to
/// state `t` and the next action `a`. A report that the state does not wait
/// for changes nothing.
pub open spec fn batch_transition(s: BatchFetch, ev: BatchEvent, t: BatchFetch, a: BatchAction) -> bool {
    match (s.stage, ev) {
        (BatchStage::AwaitSignatureHook, BatchEvent::SignatureHook(ExecutorControlFlow::Skip)) => t.txs
            == s.txs && at_signature(s, s.index + 1, t, a),
        (BatchStage::AwaitSignatureHook, BatchEvent::SignatureHook(ExecutorControlFlow::Pass)) => {
            &&& t.txs == s.txs && t.index == s.index && t.stage == BatchStage::AwaitRecorded
            &&& a == BatchAction::CheckRecorded(s.index)
        },
        (BatchStage::AwaitSignatureHook, BatchEvent::SignatureHook(ExecutorControlFlow::Stop)) => t.txs
            == s.txs && t.index == s.index && t.stage == BatchStage::Done && a is Done,
        (BatchStage::AwaitRecorded, BatchEvent::Recorded(true)) => t.txs == s.txs && at_signature(
            s,
            s.index + 1,
            t,
            a,
        ),
        (BatchStage::AwaitRecorded, BatchEvent::Recorded(false)) => {
            &&& t.txs == s.txs && t.index == s.index
            &&& match decoded_signature(s.signatures@[s.index as int]@) {
                Some(bytes) => t.stage == BatchStage::AwaitTx && (a matches BatchAction::FetchTx(i, sig) && i
                    == s.index && sig@ == bytes),
                None => t.stage == BatchStage::Done && a matches BatchAction::Fail(
                    FetchingError::ParseSignature(_),
                ),
            }
        },
        (BatchStage::AwaitTx, BatchEvent::Fetched(tx)) => t.txs@ == s.txs@.push(tx) && at_signature(
            s,
            s.index + 1,
            t,
            a,
        ),
        _ => a is Unexpected && t == s,
    }
}

impl BatchFetch {
    /// The page fetch's invariant.
    pub open spec fn wf(&self) -> bool {
        &&& self.signatures@.len() <= usize::MAX
        &&& self.index <= self.signatures@.len()
        &&& self.stage != BatchStage::Done ==> self.index < self.signatures@.len()
        &&& self.stage == BatchStage::AwaitSignatureHook ==> self.has_executor
    }

    fn go_to(&mut self, i: usize) -> (a: BatchAction)
        requires
            i <= old(self).signatures@.len(),
        ensures
            final(self).wf(),
            final(self).signatures == old(self).signatures,
            final(self).has_executor == old(self).has_executor,
            final(self).txs == old(self).txs,
            at_signature(*old(self), i as int, *final(self), a),
    {
        self.index = i;
        if i == self.signatures.len() {
            self.stage = BatchStage::Done;
            BatchAction::Done
        } else if self.has_executor {
            self.stage = BatchStage::AwaitSignatureHook;
            BatchAction::CallSignatureHook(i)
        } else {
            self.stage = BatchStage::AwaitRecorded;
            BatchAction::CheckRecorded(i)
        }
    }

    /// Takes the host's report on the pending action and returns the next action.
    pub fn step(&mut self, ev: BatchEvent) -> (a: BatchAction)
        requires
            old(self).wf(),
        ensures
            final(self).wf(),
            final(self).signatures == old(self).signatures,
            final(self).has_executor == old(self).has_executor,
            batch_transition(*old(self), ev, *final(self), a),
    {
        match (self.stage, ev) {
            (BatchStage::AwaitSignatureHook, BatchEvent::SignatureHook(cf)) => match cf {
                ExecutorControlFlow::Skip => {
                    let i = self.index + 1;
                    self.go_to(i)
                },
                ExecutorControlFlow::Pass => {
                    self.stage = BatchStage::AwaitRecorded;
                    BatchAction::CheckRecorded(self.index)
                },
                ExecutorControlFlow::Stop => {
                    self.stage = BatchStage::Done;
                    BatchAction::Done
                },
            },
            (BatchStage::AwaitRecorded, BatchEvent::Recorded(recorded)) => {
                if recorded {
                    let i = self.index + 1;
                    self.go_to(i)
                } else {
                    match parse_signature(self.signatures[self.index].as_str()) {
                        Ok(sig) => {
                            self.stage = BatchStage::AwaitTx;
                            BatchAction::FetchTx(self.index, sig)
                        },
                        Err(e) => {
                            self.stage = BatchStage::Done;
                            BatchAction::Fail(FetchingError::ParseSignature(e))
                        },
                    }
                }
            },
            (BatchStage::AwaitTx, BatchEvent::Fetched(tx)) => {
                self.txs.push(tx);
                let i = self.index + 1;
                self.go_to(i)
            },
            (_, _) => BatchAction::Unexpected,
        }
    }
}

/// A fetch that was not ended by a hook ends with a transaction only on the
/// report that it was recorded, and that transaction is pending.
pub proof fn lemma_fetched_tx_recorded_pending(s: TxFetch, ev: FetchEvent, t: TxFetch, a: FetchAction)
    requires
        s.wf(),
        fetch_transition(s, ev, t, a),
        a matches FetchAction::Done(Ok(_)),
        !(ev is Hook),
    ensures
        s.stage == FetchStage::AwaitInsert,
        ev is Inserted,
        s.tx matches Some(tx) && tx.indexing_status == IndexingStatus::Pending && a == FetchAction::Done(
            Ok(tx),
        ),
{
}

/// A transaction with the wrong envelope or message variant, or without
/// accounts, ends its fetch with that error at decomposition and is never
/// recorded.
pub proof fn lemma_malformed_not_persisted(s: TxFetch, raw: RawTransaction, now: i64, t: TxFetch, a: FetchAction)
    requires
        after_create(s, raw, now, t, a),
        message_failure(raw) is Some,
    ensures
        a matches FetchAction::Done(Err(FetchingError::NativeFetcher(e))) && Some(e) == message_failure(raw),
        t.stage == FetchStage::Done,
{
}

/// A signature whose transaction is already indexed is never fetched: the
/// page moves on to the next signature.
pub proof fn lemma_recorded_tx_skips_fetch(s: BatchFetch, t: BatchFetch, a: BatchAction)
    requires
        s.wf(),
        s.stage == BatchStage::AwaitRecorded,
        batch_transition(s, BatchEvent::Recorded(true), t, a),
    ensures
        !(a is FetchTx),
        t.index == s.index + 1,
        t.txs == s.txs,
{
}

impl FetchingManager {
    /// A fetching stage for the program with key `program_id`, with the given
    /// settings or the default ones, and no executor.
    pub fn new(program_id: &str, settings: Option<FetchingSettings>) -> (r: FetchingResult<FetchingManager>)
        ensures
            decoded_pubkey(program_id@) is None <==> r matches Err(FetchingError::ParsePubkey(_)),
            r matches Ok(m) ==> {
                &&& decoded_pubkey(program_id@) == Some(m.program_id@)
                &&& !m.has_executor
                &&& match settings {
                    Some(s) => m.fetching_settings == s,
                    None => m.fetching_settings == (FetchingSettings {
                        rpc_request_timeout: 100,
                        retry_limit: 10,
                        transaction_batch_size: MAX_TRANSACTION_BATCH_SIZE,
                    }),
                }
            },
    {
        let key = match decode_pubkey(program_id) {
            Ok(k) => k,
            Err(e) => {
                return Err(FetchingError::ParsePubkey(e));
            },
        };
        let fetching_settings = match settings {
            Some(s) => s,
            None => FetchingSettings::default(),
        };
        Ok(FetchingManager { program_id: key, fetching_settings, has_executor: false })
    }

    /// Records whether an executor is installed.
    pub fn set_executor(&mut self, present: bool)
        ensures
            final(self).has_executor == present,
            final(self).program_id == old(self).program_id,
            final(self).fetching_settings == old(self).fetching_settings,
    {
        self.has_executor = present;
    }

    /// Decides the retry after failure number `attempt`: the delay in
    /// milliseconds, or `RpcCallLimit` once the retry limit is reached.
    pub fn retry_delay(&self, attempt: u64) -> (r: FetchingResult<u64>)
        ensures
            attempt >= self.fetching_settings.retry_limit ==> r matches Err(
                FetchingError::NativeFetcher(NativeFetchingError::RpcCallLimit),
            ),
            attempt < self.fetching_settings.retry_limit ==> (r matches Ok(d) && d == retry_delay_ms(
                self.fetching_settings.rpc_request_timeout,
                attempt,
            )),
    {
        self.fetching_settings.retry_delay(attempt)
    }

    /// Starts the fetch of a page of signatures, in page order.
    pub fn fetch_batch(&self, signatures: Vec<String>) -> (r: (BatchFetch, BatchAction))
        ensures
            r.0.wf(),
            r.0.signatures == signatures,
            r.0.has_executor == self.has_executor,
            r.0.txs@.len() == 0,
            at_signature(r.0, 0, r.0, r.1),
    {
        let mut b = BatchFetch {
            signatures,
            has_executor: self.has_executor,
            index: 0,
            stage: BatchStage::Done,
            txs: Vec::new(),
        };
        let a = b.go_to(0);
        (b, a)
    }

    /// Starts the fetch of one transaction: the first action requests it.
    pub fn fetch_tx(&self) -> (r: (TxFetch, FetchAction))
        ensures
            r.0.wf(),
            r.0.stage == FetchStage::AwaitTx,
            r.0.attempt == 0,
            r.0.raw is None && r.0.tx is None,
            r.0.fetching_settings == self.fetching_settings,
            r.0.has_executor == self.has_executor,
            r.1 is RequestTx,
    {
        let settings = FetchingSettings {
            rpc_request_timeout: self.fetching_settings.rpc_request_timeout,
            retry_limit: self.fetching_settings.retry_limit,
            transaction_batch_size: self.fetching_settings.transaction_batch_size,
        };
        let f = TxFetch {
            fetching_settings: settings,
            has_executor: self.has_executor,
            attempt: 0,
            stage: FetchStage::AwaitTx,
            raw: None,
            tx: None,
            now: 0,
        };
        (f, FetchAction::RequestTx)
    }

    /// Starts discovery of the signatures strictly between `before` and
    /// `until`: the call's parameters and its retry loop, whose first action
    /// makes the call. Fails when either bound does not parse as a signature.
    pub fn get_signatures(&self, before: &Option<String>, until: &Option<String>) -> (r: FetchingResult<
        (SignatureQuery, SignaturesFetch, PageAction),
    >)
        ensures
            r is Ok <==> (
                (before matches Some(b) ==> decoded_signature(b@) is Some)
                && (until matches Some(u) ==> decoded_signature(u@) is Some)),
            r is Err ==> r matches Err(FetchingError::ParseSignature(_)),
            r matches Ok((q, f, a)) ==> {
                &&& bound_of(*before, q.before)
                &&& bound_of(*until, q.until)
                &&& q.limit == self.fetching_settings.signatures_limit_spec()
                &&& f.wf() && !f.done && f.attempt == 0
                &&& f.fetching_settings == self.fetching_settings
                &&& a is RequestPage
            },
    {
        let q = self.signatures_query(before, until)?;
        let settings = FetchingSettings {
            rpc_request_timeout: self.fetching_settings.rpc_request_timeout,
            retry_limit: self.fetching_settings.retry_limit,
            transaction_batch_size: self.fetching_settings.transaction_batch_size,
        };
        Ok((q, SignaturesFetch { fetching_settings: settings, attempt: 0, done: false }, PageAction::RequestPage))
    }

    /// The discovery query for the signatures strictly between `before` and
    /// `until`; fails when either does not parse as a signature.
    pub fn signatures_query(&self, before: &Option<String>, until: &Option<String>) -> (r: FetchingResult<SignatureQuery>)
        ensures
            r is Ok <==> (
                (before matches Some(b) ==> decoded_signature(b@) is Some)
                && (until matches Some(u) ==> decoded_signature(u@) is Some)),
            r is Err ==> r matches Err(FetchingError::ParseSignature(_)),
            r matches Ok(q) ==> {
                &&& bound_of(*before, q.before)
                &&& bound_of(*until, q.until)
                &&& q.limit == self.fetching_settings.signatures_limit_spec()
            },
    {
        let sign_before = match before {
            Some(b) => match parse_signature(b.as_str()) {
                Ok(s) => Some(s),
                Err(e) => {
                    return Err(FetchingError::ParseSignature(e));
                },
            },
            None => None,
        };
        let sign_until = match until {
            Some(u) => match parse_signature(u.as_str()) {
                Ok(s) => Some(s),
                Err(e) => {
                    return Err(FetchingError::ParseSignature(e));
                },
            },
            None => None,
        };
        Ok(SignatureQuery { before: sign_before, until: sign_until, limit: self.fetching_settings.signatures_limit() })
    }
}

} // verus!
