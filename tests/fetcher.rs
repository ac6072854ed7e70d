use solana_indexer::fetcher::fetching_manager::{BatchStage, FetchStage};
use solana_indexer::indexer::indexer_report::{Availability, ReportUpdate, ResponseLabel};
use solana_signature::Signature;
use std::str::FromStr;
use solana_indexer::{
    create_tx, fibonacci, is_acc_signer, is_acc_writable, BatchAction, BatchEvent,
    CompiledInstruction, ControlFlowWithData, ExecutorControlFlow, FetchAction, FetchEvent,
    FetchingError, FetchingManager, FetchingSettings, HookStage, IndexingStatus, MessageHeader,
    NativeFetchingError, PageAction, PageEvent, RawMessage, RpcOutcome, RawTransaction, Tx, TxEnvelope, TxMessage,
};

const SIG: &str = "3AsdoALgZFuq2oUVWrDYhg2pNeaLJKPLf8hU2mQ6U8qJxeJ6hsrPVpMn9ma39DtfYCrDQSvngWRP8NnTpEhezJpE";
const SYSTEM: &str = "11111111111111111111111111111111";
const USDC: &str = "EPjFWdd5AufqSSqeM2qN1xzybapC8G4wEGGkZwyTDt1v";
const WSOL: &str = "So11111111111111111111111111111111111111112";
const TOKEN: &str = "TokenkegQfeZyiNwAJbNbGKPFXCWuBvf9Ss623VQ5DA";
const CLOCK: &str = "SysvarC1ock11111111111111111111111111111111";
const LOADER: &str = "BPFLoaderUpgradeab1e11111111111111111111111";

fn header(a: u8, b: u8, c: u8) -> MessageHeader {
    MessageHeader {
        num_required_signatures: a,
        num_readonly_signed_accounts: b,
        num_readonly_unsigned_accounts: c,
    }
}

fn message(h: MessageHeader, keys: &[&str], programs: &[u8]) -> RawMessage {
    RawMessage {
        header: h,
        account_keys: keys.iter().map(|k| k.to_string()).collect(),
        instructions: programs
            .iter()
            .map(|p| CompiledInstruction { program_id_index: *p, accounts: vec![0], data: String::new() })
            .collect(),
    }
}

fn json_tx(signatures: Vec<String>, message: TxMessage, block_time: Option<i64>) -> RawTransaction {
    RawTransaction {
        transaction: TxEnvelope::Json { signatures, message },
        log_messages: None,
        block_time,
    }
}

fn native(r: Result<Tx, FetchingError>) -> NativeFetchingError {
    match r {
        Err(FetchingError::NativeFetcher(e)) => e,
        _ => panic!("Wrong error type"),
    }
}

#[test]
fn create_tx_success_test() {
    let raw = json_tx(
        vec![SIG.to_string()],
        TxMessage::Raw(message(header(1, 1, 1), &[SYSTEM], &[])),
        Some(123),
    );
    let tx = create_tx(raw, 1_700_000_000).unwrap();
    assert_eq!(tx.hash, SIG);
    assert_eq!(tx.blocktime, 123);
    assert_eq!(tx.indexing_status, IndexingStatus::Pending);
    assert_eq!(tx.account_keys.len(), 1);
    assert_eq!(tx.account_keys[0].pubkey, SYSTEM);
    assert!(tx.account_keys[0].signer);
    assert!(!tx.account_keys[0].writable);
    assert_eq!(tx.indexing_timestamp, 1_700_000_000);
}

#[test]
fn create_wrong_encoded_tx_test() {
    let raw = RawTransaction { transaction: TxEnvelope::Other, log_messages: None, block_time: Some(123) };
    assert_eq!(native(create_tx(raw, 1_700_000_000)), NativeFetchingError::WrongEncoding);
}

#[test]
fn create_wrong_tx_msg_test() {
    let raw = json_tx(vec![SIG.to_string()], TxMessage::Parsed, Some(123));
    assert_eq!(native(create_tx(raw, 1_700_000_000)), NativeFetchingError::WrongMsgType);
}

#[test]
fn create_tx_without_accounts_test() {
    let raw = json_tx(vec![SIG.to_string()], TxMessage::Raw(message(header(1, 1, 1), &[], &[])), Some(123));
    assert_eq!(native(create_tx(raw, 1_700_000_000)), NativeFetchingError::TxWithoutAccounts);
}

#[test]
fn create_tx_without_signatures_test() {
    let raw = json_tx(vec![], TxMessage::Raw(message(header(1, 1, 1), &[SYSTEM], &[])), Some(123));
    assert_eq!(native(create_tx(raw, 1_700_000_000)), NativeFetchingError::TxWithoutSignatures);
}

#[test]
fn create_tx_without_blocktime_test() {
    let raw = json_tx(vec![SIG.to_string()], TxMessage::Raw(message(header(1, 1, 1), &[SYSTEM], &[])), None);
    assert_eq!(native(create_tx(raw, 1_700_000_000)), NativeFetchingError::TxWithoutBlocktime);
}

#[test]
fn create_tx_with_broken_key_fails_to_parse() {
    let raw = json_tx(
        vec![SIG.to_string()],
        TxMessage::Raw(message(header(1, 0, 0), &[USDC, "not-a-key"], &[])),
        Some(5),
    );
    assert!(matches!(create_tx(raw, 1_700_000_000), Err(FetchingError::ParsePubkey(_))));
}

#[test]
fn account_flags_follow_header_and_demotion() {
    let m = message(header(2, 1, 1), &[USDC, WSOL, TOKEN, CLOCK], &[2]);
    let writable: Vec<bool> = (0..4).map(|i| is_acc_writable(i, &m).unwrap()).collect();
    let signer: Vec<bool> = (0..4).map(|i| is_acc_signer(i, &m)).collect();
    assert_eq!(writable, vec![true, false, false, false]);
    assert_eq!(signer, vec![true, true, false, false]);
}

#[test]
fn program_account_stays_writable_with_upgradeable_loader() {
    let m = message(header(2, 1, 1), &[USDC, WSOL, TOKEN, LOADER], &[2]);
    assert!(is_acc_writable(2, &m).unwrap());
    let m = message(header(2, 1, 0), &[USDC, WSOL, TOKEN, LOADER], &[2]);
    assert!(!is_acc_writable(3, &m).unwrap());
}

#[test]
fn sysvar_and_builtin_accounts_are_never_writable() {
    let m = message(header(1, 0, 0), &[USDC, CLOCK, SYSTEM], &[]);
    assert!(is_acc_writable(0, &m).unwrap());
    assert!(!is_acc_writable(1, &m).unwrap());
    assert!(!is_acc_writable(2, &m).unwrap());
}

#[test]
fn readonly_counts_larger_than_totals_leave_no_writable_slot() {
    let m = message(header(1, 3, 5), &[USDC, WSOL], &[]);
    assert!(!is_acc_writable(0, &m).unwrap());
    assert!(!is_acc_writable(1, &m).unwrap());
    assert!(is_acc_signer(0, &m));
    assert!(!is_acc_signer(1, &m));
}

#[test]
fn decomposition_sets_flags_per_account() {
    let raw = json_tx(
        vec![SIG.to_string(), USDC.to_string()],
        TxMessage::Raw(message(header(2, 1, 1), &[USDC, WSOL, TOKEN, CLOCK], &[2])),
        Some(-7),
    );
    let tx = create_tx(raw, 1_700_000_000).unwrap();
    assert_eq!(tx.hash, SIG);
    assert_eq!(tx.blocktime, -7);
    let flags: Vec<(bool, bool)> = tx.account_keys.iter().map(|a| (a.writable, a.signer)).collect();
    assert_eq!(flags, vec![(true, true), (false, true), (false, false), (false, false)]);
    assert_eq!(tx.instructions.len(), 1);
    assert_eq!(tx.instructions[0].program_id_index, 2);
}

#[test]
fn fibonacci_values() {
    assert_eq!(fibonacci(0), 1);
    assert_eq!(fibonacci(1), 1);
    assert_eq!(fibonacci(2), 2);
    assert_eq!(fibonacci(5), 8);
    assert_eq!(fibonacci(10), 89);
    assert_eq!(fibonacci(92), 12200160415121876738);
}

fn settings(timeout: u64, limit: u64) -> FetchingSettings {
    FetchingSettings { rpc_request_timeout: timeout, retry_limit: limit, transaction_batch_size: 20 }
}

#[test]
fn retry_delay_is_timeout_times_fibonacci() {
    let m = FetchingManager::new(USDC, Some(settings(100, 10))).unwrap();
    assert_eq!(m.retry_delay(1).unwrap(), 100);
    assert_eq!(m.retry_delay(2).unwrap(), 200);
    assert_eq!(m.retry_delay(5).unwrap(), 800);
    assert_eq!(m.retry_delay(9).unwrap(), 5500);
    assert!(matches!(
        m.retry_delay(10),
        Err(FetchingError::NativeFetcher(NativeFetchingError::RpcCallLimit))
    ));
}

#[test]
fn retry_delay_saturates() {
    let m = FetchingManager::new(USDC, Some(settings(u64::MAX, u64::MAX))).unwrap();
    assert_eq!(m.retry_delay(2).unwrap(), u64::MAX);
    assert_eq!(m.retry_delay(200).unwrap(), u64::MAX);
    let m = FetchingManager::new(USDC, Some(settings(0, u64::MAX))).unwrap();
    assert_eq!(m.retry_delay(200).unwrap(), 0);
}

#[test]
fn default_settings() {
    let s = FetchingSettings::default();
    assert_eq!((s.rpc_request_timeout, s.retry_limit, s.transaction_batch_size), (100, 10, 20));
    let m = FetchingManager::new(USDC, None).unwrap();
    assert_eq!(m.fetching_settings.retry_limit, 10);
    assert!(!m.has_executor);
}

#[test]
fn manager_rejects_broken_program_id() {
    assert!(matches!(FetchingManager::new("broken", None), Err(FetchingError::ParsePubkey(_))));
}

#[test]
fn signatures_query_parses_bounds_and_caps_limit() {
    let m = FetchingManager::new(USDC, Some(FetchingSettings {
        rpc_request_timeout: 1,
        retry_limit: 1,
        transaction_batch_size: 500,
    }))
    .unwrap();
    let q = m.signatures_query(&Some(SIG.to_string()), &None).unwrap();
    assert!(q.before.is_some());
    assert!(q.until.is_none());
    assert_eq!(q.limit, 20);
    assert_eq!(q.before.unwrap(), sig_bytes(SIG));
    let bad = m.signatures_query(&None, &Some("0OIl".to_string()));
    assert!(matches!(bad, Err(FetchingError::ParseSignature(_))));
}

#[test]
fn discovery_retry_exhaustion_surfaces_rpc_call_limit() {
    let m = FetchingManager::new(USDC, Some(settings(10, 3))).unwrap();
    let (q, mut f, a) = m.get_signatures(&None, &None).unwrap();
    assert!(q.before.is_none() && q.until.is_none());
    assert!(matches!(a, PageAction::RequestPage));
    let mut slept = Vec::new();
    loop {
        match f.step(PageEvent::PageFailed(RpcOutcome::Failure)) {
            PageAction::RetryAfter(ms) => slept.push(ms),
            PageAction::Done(Err(FetchingError::NativeFetcher(NativeFetchingError::RpcCallLimit))) => break,
            other => panic!("unexpected {:?}", other),
        }
    }
    assert_eq!(slept, vec![10, 20]);
    assert!(f.done);
    assert!(matches!(f.step(PageEvent::PageFailed(RpcOutcome::Failure)), PageAction::Unexpected));
}

#[test]
fn discovery_returns_page_unchanged() {
    let m = FetchingManager::new(USDC, None).unwrap();
    let (_, mut f, _) = m.get_signatures(&None, &Some(SIG.to_string())).unwrap();
    assert!(matches!(f.step(PageEvent::PageFailed(RpcOutcome::Failure)), PageAction::RetryAfter(100)));
    match f.step(PageEvent::PageReturned(vec!["b".to_string(), "a".to_string()])) {
        PageAction::Done(Ok(p)) => assert_eq!(p, vec!["b".to_string(), "a".to_string()]),
        other => panic!("unexpected {:?}", other),
    }
}

#[test]
fn retry_exhaustion_surfaces_rpc_call_limit() {
    let m = FetchingManager::new(USDC, Some(settings(10, 3))).unwrap();
    let (mut f, a) = m.fetch_tx();
    assert!(matches!(a, FetchAction::RequestTx));
    let mut slept = 0;
    let mut failures = 0;
    loop {
        match f.step(FetchEvent::TxFailed(RpcOutcome::Failure)) {
            FetchAction::RetryAfter(ms) => {
                slept += ms;
                failures += 1;
            }
            FetchAction::Done(Err(FetchingError::NativeFetcher(NativeFetchingError::RpcCallLimit))) => break,
            other => panic!("unexpected {:?}", other),
        }
    }
    assert_eq!(failures, 2);
    assert_eq!(slept, 10 * (1 + 2));
    assert_eq!(f.stage, FetchStage::Done);
}

fn valid_raw(logs: Option<Vec<String>>) -> RawTransaction {
    RawTransaction {
        transaction: TxEnvelope::Json {
            signatures: vec![SIG.to_string()],
            message: TxMessage::Raw(message(header(1, 0, 1), &[USDC, TOKEN], &[1])),
        },
        log_messages: logs,
        block_time: Some(77),
    }
}

fn hook(cf: ExecutorControlFlow, data: Option<Result<Tx, FetchingError>>) -> FetchEvent {
    FetchEvent::Hook(ControlFlowWithData { control_flow: cf, data })
}

#[test]
fn fetch_runs_every_hook_then_records() {
    let mut m = FetchingManager::new(USDC, None).unwrap();
    m.set_executor(true);
    let (mut f, _) = m.fetch_tx();
    let a = f.step(FetchEvent::TxReturned(valid_raw(Some(vec!["Program log: hi".to_string()])), 1_700_000_000));
    assert!(matches!(a, FetchAction::CallRawHook));
    let a = f.step(hook(ExecutorControlFlow::Pass, None));
    match a {
        FetchAction::CallLogHook(msgs) => assert_eq!(msgs, vec!["Program log: hi".to_string()]),
        other => panic!("unexpected {:?}", other),
    }
    let a = f.step(hook(ExecutorControlFlow::Pass, None));
    assert!(matches!(a, FetchAction::CallParsedHook));
    assert_eq!(f.parsed().unwrap().blocktime, 77);
    let a = f.step(hook(ExecutorControlFlow::Pass, None));
    assert!(matches!(a, FetchAction::InsertTx));
    match f.step(FetchEvent::Inserted) {
        FetchAction::Done(Ok(tx)) => {
            assert_eq!(tx.hash, SIG);
            assert_eq!(tx.indexing_status, IndexingStatus::Pending);
        }
        other => panic!("unexpected {:?}", other),
    }
}

#[test]
fn fetch_skip_at_raw_stage_refetches() {
    let mut m = FetchingManager::new(USDC, None).unwrap();
    m.set_executor(true);
    let (mut f, _) = m.fetch_tx();
    f.step(FetchEvent::TxReturned(valid_raw(None), 1_700_000_000));
    let a = f.step(hook(ExecutorControlFlow::Skip, None));
    assert!(matches!(a, FetchAction::RequestTx));
    assert_eq!(f.stage, FetchStage::AwaitTx);
    assert!(f.raw.is_none());
}

#[test]
fn fetch_stop_without_substitute_is_hook_consumed() {
    let mut m = FetchingManager::new(USDC, None).unwrap();
    m.set_executor(true);
    let (mut f, _) = m.fetch_tx();
    f.step(FetchEvent::TxReturned(valid_raw(None), 1_700_000_000));
    f.step(hook(ExecutorControlFlow::Pass, None));
    let a = f.step(hook(ExecutorControlFlow::Stop, None));
    assert!(matches!(
        a,
        FetchAction::Done(Err(FetchingError::HookConsumed(HookStage::ParsedTransaction)))
    ));
}

#[test]
fn fetch_without_executor_skips_hooks() {
    let m = FetchingManager::new(USDC, None).unwrap();
    let (mut f, _) = m.fetch_tx();
    let a = f.step(FetchEvent::TxReturned(valid_raw(Some(vec![])), 1_700_000_000));
    assert!(matches!(a, FetchAction::InsertTx));
    let a = f.step(FetchEvent::Inserted);
    assert!(matches!(a, FetchAction::Done(Ok(_))));
}

#[test]
fn fetch_ignores_unexpected_report() {
    let m = FetchingManager::new(USDC, None).unwrap();
    let (mut f, _) = m.fetch_tx();
    assert!(matches!(f.step(FetchEvent::Inserted), FetchAction::Unexpected));
    assert_eq!(f.stage, FetchStage::AwaitTx);
}

#[test]
fn batch_hooks_skip_and_stop() {
    let mut m = FetchingManager::new(USDC, None).unwrap();
    m.set_executor(true);
    let page = vec![SIG.to_string(), SIG.to_string(), SIG.to_string()];
    let (mut b, a) = m.fetch_batch(page);
    assert!(matches!(a, BatchAction::CallSignatureHook(0)));
    let a = b.step(BatchEvent::SignatureHook(ExecutorControlFlow::Skip));
    assert!(matches!(a, BatchAction::CallSignatureHook(1)));
    let a = b.step(BatchEvent::SignatureHook(ExecutorControlFlow::Pass));
    assert!(matches!(a, BatchAction::CheckRecorded(1)));
    let a = b.step(BatchEvent::Recorded(false));
    match a {
        BatchAction::FetchTx(1, sig) => assert_eq!(sig, sig_bytes(SIG)),
        other => panic!("unexpected {:?}", other),
    }
    let tx = create_tx(valid_raw(None), 1_700_000_000).unwrap();
    let a = b.step(BatchEvent::Fetched(tx));
    assert!(matches!(a, BatchAction::CallSignatureHook(2)));
    let a = b.step(BatchEvent::SignatureHook(ExecutorControlFlow::Stop));
    assert!(matches!(a, BatchAction::Done));
    assert_eq!(b.txs.len(), 1);
    assert_eq!(b.stage, BatchStage::Done);
}

#[test]
fn batch_fails_on_broken_signature() {
    let m = FetchingManager::new(USDC, None).unwrap();
    let (mut b, a) = m.fetch_batch(vec!["zz0".to_string()]);
    assert!(matches!(a, BatchAction::CheckRecorded(0)));
    let a = b.step(BatchEvent::Recorded(false));
    assert!(matches!(a, BatchAction::Fail(FetchingError::ParseSignature(_))));
}

#[test]
fn empty_batch_is_done_at_once() {
    let m = FetchingManager::new(USDC, None).unwrap();
    let (b, a) = m.fetch_batch(vec![]);
    assert!(matches!(a, BatchAction::Done));
    assert!(b.txs.is_empty());
}

fn sig_bytes(s: &str) -> [u8; 64] {
    Signature::from_str(s).unwrap().into()
}

#[test]
fn signatures_query_keeps_bounds_apart() {
    let other = "5VERv8NMvzbJMEkV8xnrLkEaWRtSz9CosKDYjCJjBRnbJLgp8uirBgmQpjKhoR4tjF3ZpRzrFmBV6UjKdiSZkQUW";
    let m = FetchingManager::new(USDC, None).unwrap();
    let q = m.signatures_query(&Some(SIG.to_string()), &Some(other.to_string())).unwrap();
    assert_eq!(q.before.unwrap(), sig_bytes(SIG));
    assert_eq!(q.until.unwrap(), sig_bytes(other));
}

#[test]
fn call_results_update_the_report() {
    let failed = PageEvent::PageFailed(RpcOutcome::RpcError(-32005)).report();
    assert_eq!(failed, ReportUpdate { label: ResponseLabel { code: -32005 }, availability: Availability::Unavailable });
    let other = PageEvent::PageFailed(RpcOutcome::Failure).report();
    assert_eq!(other.label.code, 500);
    let page = PageEvent::PageReturned(vec![]).report();
    assert_eq!(page, ReportUpdate { label: ResponseLabel { code: 200 }, availability: Availability::Available });
    assert_eq!(FetchEvent::TxFailed(RpcOutcome::Failure).report().unwrap().availability, Availability::Unavailable);
    assert_eq!(FetchEvent::TxReturned(valid_raw(None), 1).report().unwrap().label.code, 200);
    assert!(FetchEvent::Inserted.report().is_none());
}

#[test]
fn fetched_transaction_is_stamped_with_arrival_time() {
    let mut m = FetchingManager::new(USDC, None).unwrap();
    m.set_executor(true);
    let (mut f, _) = m.fetch_tx();
    f.step(FetchEvent::TxReturned(valid_raw(None), 1234));
    f.step(hook(ExecutorControlFlow::Pass, None));
    assert_eq!(f.parsed().unwrap().indexing_timestamp, 1234);
}
