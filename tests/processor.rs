use solana_indexer::processor::processing_manager::{get_instructions, indices_valid, ProcessStage};
use solana_indexer::{
    CompiledInstruction, ExecutorControlFlow, NativeProcessingError, ParsedAccount, ProcessAction,
    ProcessEvent, Tx, TxProcessing,
};

fn account(key: &str, writable: bool, signer: bool) -> ParsedAccount {
    ParsedAccount { pubkey: key.to_string(), writable, signer }
}

fn ix(program: u8, accounts: Vec<u8>, data: &str) -> CompiledInstruction {
    CompiledInstruction { program_id_index: program, accounts, data: data.to_string() }
}

fn one_instruction_tx() -> Tx {
    Tx::new(
        String::default(),
        123,
        vec![ix(0, vec![0], "")],
        vec![account("", true, true)], 1_700_000_000
    )
}

#[test]
fn get_instructions_success_test() {
    let tx = one_instruction_tx();
    let ixs = get_instructions(&tx).unwrap();
    assert_eq!(ixs.len(), 1);
    assert_eq!(ixs[0].id, 0);
    assert_eq!(ixs[0].blocktime, 123);
}

#[test]
fn no_instruction_in_tx_test() {
    let tx = Tx::new(String::default(), 123, vec![], vec![account("", true, true)], 1_700_000_000);
    assert_eq!(get_instructions(&tx).unwrap_err(), NativeProcessingError::TxWithoutInstructions);
}

#[test]
fn instructions_resolve_program_and_accounts() {
    let tx = Tx::new(
        "h".to_string(),
        9,
        vec![ix(2, vec![1, 0], "3Bxs"), ix(1, vec![], "")],
        vec![account("a", true, true), account("b", false, false), account("prog", false, false)], 1_700_000_000
    );
    assert!(indices_valid(&tx));
    let ixs = get_instructions(&tx).unwrap();
    assert_eq!(ixs.len(), 2);
    assert_eq!(ixs[0].program_id, "prog");
    assert_eq!(ixs[0].tx_hash, "h");
    assert_eq!(ixs[0].data, "3Bxs");
    let keys: Vec<&str> = ixs[0].account_keys.iter().map(|a| a.pubkey.as_str()).collect();
    assert_eq!(keys, vec!["b", "a"]);
    assert!(!ixs[0].account_keys[0].writable && ixs[0].account_keys[1].signer);
    assert_eq!(ixs[1].id, 1);
    assert_eq!(ixs[1].program_id, "b");
    assert!(ixs[1].account_keys.is_empty());
}

#[test]
fn indices_out_of_range_are_detected() {
    let tx = Tx::new("h".to_string(), 1, vec![ix(0, vec![3], "")], vec![account("a", true, true)], 1_700_000_000);
    assert!(!indices_valid(&tx));
    let tx = Tx::new("h".to_string(), 1, vec![ix(4, vec![0], "")], vec![account("a", true, true)], 1_700_000_000);
    assert!(!indices_valid(&tx));
}

#[test]
fn processing_without_executor_fails_with_empty_cb() {
    let tx = one_instruction_tx();
    let (mut p, a) = TxProcessing::new(&tx, false).unwrap();
    assert_eq!(a, ProcessAction::CheckRecorded(0));
    let a = p.step(ProcessEvent::Recorded(false));
    assert_eq!(a, ProcessAction::Fail(NativeProcessingError::EmptyCb));
    assert!(!p.may_mark_indexed());
}

#[test]
fn processing_skips_recorded_instructions_without_executor() {
    let tx = one_instruction_tx();
    let (mut p, _) = TxProcessing::new(&tx, false).unwrap();
    assert_eq!(p.step(ProcessEvent::Recorded(true)), ProcessAction::Finish);
    assert!(p.may_mark_indexed());
}

#[test]
fn processing_stop_ends_early_and_still_indexes() {
    let tx = Tx::new(
        "h".to_string(),
        1,
        vec![ix(0, vec![0], ""), ix(0, vec![0], "")],
        vec![account("a", true, true)], 1_700_000_000
    );
    let (mut p, _) = TxProcessing::new(&tx, true).unwrap();
    assert_eq!(p.step(ProcessEvent::Recorded(false)), ProcessAction::CallHook(0));
    assert_eq!(p.step(ProcessEvent::Hook(ExecutorControlFlow::Stop)), ProcessAction::Finish);
    assert_eq!(p.stage, ProcessStage::Stopped);
    assert!(p.may_mark_indexed());
}

#[test]
fn processing_pass_inserts_then_moves_on() {
    let tx = Tx::new(
        "h".to_string(),
        1,
        vec![ix(0, vec![0], ""), ix(0, vec![0], "")],
        vec![account("a", true, true)], 1_700_000_000
    );
    let (mut p, _) = TxProcessing::new(&tx, true).unwrap();
    p.step(ProcessEvent::Recorded(false));
    assert_eq!(p.step(ProcessEvent::Hook(ExecutorControlFlow::Pass)), ProcessAction::Insert(0));
    assert_eq!(p.step(ProcessEvent::Hook(ExecutorControlFlow::Pass)), ProcessAction::Insert(0));
    assert_eq!(p.step(ProcessEvent::Inserted), ProcessAction::CheckRecorded(1));
    assert_eq!(p.step(ProcessEvent::Recorded(true)), ProcessAction::Finish);
    assert_eq!(p.stage, ProcessStage::Finished);
}

#[test]
fn processing_rejects_tx_without_instructions() {
    let tx = Tx::new("h".to_string(), 1, vec![], vec![account("a", true, true)], 1_700_000_000);
    assert!(matches!(
        TxProcessing::new(&tx, true),
        Err(NativeProcessingError::TxWithoutInstructions)
    ));
}

#[test]
fn processing_rejects_out_of_range_account() {
    let tx = Tx::new("h".to_string(), 1, vec![ix(0, vec![3], "")], vec![account("a", true, true)], 1);
    assert!(matches!(TxProcessing::new(&tx, true), Err(NativeProcessingError::AccountIndexOutOfRange)));
}
