use solana_indexer::{CompiledInstruction, IndexingStatus, Instruction, MemoryStore, Tx};

fn tx(hash: &str, blocktime: i64) -> Tx {
    Tx::new(hash.to_string(), blocktime, vec![], vec![], 1_700_000_000)
}

fn instruction(hash: &str, id: u8) -> Instruction {
    Instruction::new(id, hash.to_string(), "prog".to_string(), 5, vec![], "data".to_string())
}

#[test]
fn insert_tx_is_idempotent() {
    let mut s = MemoryStore::new();
    s.insert_tx(&tx("a", 1));
    s.insert_tx(&tx("a", 99));
    assert_eq!(s.transactions.len(), 1);
    assert_eq!(s.transactions[0].blocktime, 1);
    assert_eq!(s.transactions[0].indexing_status, IndexingStatus::Pending);
}

#[test]
fn insert_instruction_is_idempotent() {
    let mut s = MemoryStore::new();
    s.insert_instruction(&instruction("a", 0));
    s.insert_instruction(&instruction("a", 0));
    s.insert_instruction(&instruction("a", 1));
    assert_eq!(s.instructions.len(), 2);
    assert!(s.recorded_instruction(&instruction("a", 1)));
    assert!(!s.recorded_instruction(&instruction("b", 0)));
}

#[test]
fn update_tx_sets_status_or_does_nothing() {
    let mut s = MemoryStore::new();
    s.insert_tx(&tx("a", 1));
    s.update_tx(&"missing".to_string(), IndexingStatus::Indexed);
    assert!(!s.recorded_tx(&"a".to_string()));
    s.update_tx(&"a".to_string(), IndexingStatus::Indexed);
    assert!(s.recorded_tx(&"a".to_string()));
    assert!(!s.recorded_tx(&"missing".to_string()));
    assert_eq!(s.transactions.len(), 1);
}

#[test]
fn most_recent_follows_blocktime_and_never_moves_back() {
    let mut s = MemoryStore::new();
    assert_eq!(s.most_recent_tx(), None);
    s.insert_tx(&tx("mid", 100));
    assert_eq!(s.most_recent_tx(), Some("mid".to_string()));
    s.insert_tx(&tx("old", 50));
    assert_eq!(s.most_recent_tx(), Some("mid".to_string()));
    s.insert_tx(&tx("new", 200));
    assert_eq!(s.most_recent_tx(), Some("new".to_string()));
    s.update_tx(&"mid".to_string(), IndexingStatus::Indexed);
    assert_eq!(s.most_recent_tx(), Some("new".to_string()));
}

#[test]
fn transaction_rows_keep_timestamp() {
    let mut s = MemoryStore::new();
    let t = Tx::new(
        "h".to_string(),
        3,
        vec![CompiledInstruction { program_id_index: 0, accounts: vec![], data: String::new() }],
        vec![], 1_700_000_000
    );
    s.insert_tx(&t);
    assert_eq!(s.transactions[0].indexing_timestamp, t.indexing_timestamp);
}
