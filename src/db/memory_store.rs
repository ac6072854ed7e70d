//! The store's semantics, kept in memory: transactions keyed by hash,
//! instructions keyed by transaction hash and position, every insert doing
//! nothing on conflict.
use vstd::prelude::*;
use crate::fetcher::tx::{IndexingStatus, Tx};
use crate::processor::instruction::Instruction;

verus! {

/// A stored transaction.
#[derive(Debug)]
pub struct TxRecord {
    pub hash: String,
    pub blocktime: i64,
    pub indexing_status: IndexingStatus,
    pub indexing_timestamp: i64,
}

/// A stored instruction.
#[derive(Debug)]
pub struct InstructionRecord {
    pub tx_hash: String,
    pub id: u8,
    pub program_id: String,
    pub blocktime: i64,
    pub data: String,
}

/// The value of a stored transaction.
pub struct TxRow {
    pub hash: Seq<char>,
    pub blocktime: i64,
    pub status: IndexingStatus,
    pub timestamp: i64,
}

/// The value of a stored instruction.
pub struct InstructionRow {
    pub tx_hash: Seq<char>,
    pub id: u8,
    pub program_id: Seq<char>,
    pub blocktime: i64,
    pub data: Seq<char>,
}

impl View for TxRecord {
    type V = TxRow;

    open spec fn view(&self) -> TxRow {
        TxRow {
            hash: self.hash@,
            blocktime: self.blocktime,
            status: self.indexing_status,
            timestamp: self.indexing_timestamp,
        }
    }
}

impl View for InstructionRecord {
    type V = InstructionRow;

    open spec fn view(&self) -> InstructionRow {
        InstructionRow {
            tx_hash: self.tx_hash@,
            id: self.id,
            program_id: self.program_id@,
            blocktime: self.blocktime,
            data: self.data@,
        }
    }
}

/// Whether a row with hash `h` is stored.
pub open spec fn has_tx(rows: Seq<TxRow>, h: Seq<char>) -> bool {
    exists|i: int| 0 <= i < rows.len() && (#[trigger] rows[i]).hash == h
}

/// The rows after inserting `row`: unchanged when its hash is stored.
pub open spec fn insert_tx_rows(rows: Seq<TxRow>, row: TxRow) -> Seq<TxRow> {
    if has_tx(rows, row.hash) {
        rows
    } else {
        rows.push(row)
    }
}

/// The rows after setting the status of the row with hash `h`.
pub open spec fn update_tx_rows(rows: Seq<TxRow>, h: Seq<char>, st: IndexingStatus) -> Seq<TxRow> {
    rows.map_values(|r: TxRow| set_status(r, h, st))
}

/// A row with its status set to `st` when its hash is `h`.
pub open spec fn set_status(r: TxRow, h: Seq<char>, st: IndexingStatus) -> TxRow {
    if r.hash == h {
        TxRow { status: st, ..r }
    } else {
        r
    }
}

/// Whether instruction `id` of transaction `h` is stored.
pub open spec fn has_instruction(rows: Seq<InstructionRow>, h: Seq<char>, id: u8) -> bool {
    exists|i: int| 0 <= i < rows.len() && (#[trigger] rows[i]).tx_hash == h && rows[i].id == id
}

/// The rows after inserting `row`: unchanged when its key is stored.
pub open spec fn insert_instruction_rows(rows: Seq<InstructionRow>, row: InstructionRow) -> Seq<InstructionRow> {
    if has_instruction(rows, row.tx_hash, row.id) {
        rows
    } else {
        rows.push(row)
    }
}

/// Whether the transaction with hash `h` is stored and indexed.
pub open spec fn recorded_tx_spec(rows: Seq<TxRow>, h: Seq<char>) -> bool {
    exists|i: int| 0 <= i < rows.len() && (#[trigger] rows[i]).hash == h && rows[i].status == IndexingStatus::Indexed
}

/// Whether `bt` is the largest block time among the rows.
pub open spec fn cursor_blocktime(rows: Seq<TxRow>, bt: i64) -> bool {
    &&& exists|i: int| 0 <= i < rows.len() && (#[trigger] rows[i]).blocktime == bt
    &&& forall|j: int| 0 <= j < rows.len() ==> (#[trigger] rows[j]).blocktime <= bt
}

/// Whether the row with hash `h` has the largest block time.
pub open spec fn most_recent(rows: Seq<TxRow>, h: Seq<char>) -> bool {
    exists|i: int| 0 <= i < rows.len() && (#[trigger] rows[i]).hash == h && cursor_blocktime(rows, rows[i].blocktime)
}

/// The rows of `old` stay in `new`, in place and with their block times.
pub open spec fn keeps_rows(old: Seq<TxRow>, new: Seq<TxRow>) -> bool {
    &&& old.len() <= new.len()
    &&& forall|i: int| 0 <= i < old.len() ==> (#[trigger] new[i]).hash == old[i].hash && new[i].blocktime == old[i].blocktime
}

/// The row that inserting a transaction stores: its hash, block time and
/// timestamp, as pending.
pub open spec fn tx_row(tx: Tx) -> TxRow {
    TxRow {
        hash: tx.hash@,
        blocktime: tx.blocktime,
        status: IndexingStatus::Pending,
        timestamp: tx.indexing_timestamp,
    }
}

/// The row that inserting an instruction stores.
pub open spec fn instruction_row(ix: Instruction) -> InstructionRow {
    InstructionRow {
        tx_hash: ix.tx_hash@,
        id: ix.id,
        program_id: ix.program_id@,
        blocktime: ix.blocktime,
        data: ix.data@,
    }
}

/// Inserting a transaction twice stores the same rows as inserting it once.
pub proof fn lemma_insert_tx_idempotent(rows: Seq<TxRow>, row: TxRow)
    ensures
        insert_tx_rows(insert_tx_rows(rows, row), row) == insert_tx_rows(rows, row),
{
    if !has_tx(rows, row.hash) {
        let r2 = rows.push(row);
        assert(r2[rows.len() as int].hash == row.hash);
    }
}

/// Inserting an instruction twice stores the same rows as inserting it once.
pub proof fn lemma_insert_instruction_idempotent(rows: Seq<InstructionRow>, row: InstructionRow)
    ensures
        insert_instruction_rows(insert_instruction_rows(rows, row), row) == insert_instruction_rows(rows, row),
{
    if !has_instruction(rows, row.tx_hash, row.id) {
        let r2 = rows.push(row);
        assert(r2[rows.len() as int].tx_hash == row.tx_hash && r2[rows.len() as int].id == row.id);
    }
}

/// Setting a transaction's status twice stores the same rows as setting it once.
pub proof fn lemma_update_tx_idempotent(rows: Seq<TxRow>, h: Seq<char>, st: IndexingStatus)
    ensures
        update_tx_rows(update_tx_rows(rows, h, st), h, st) == update_tx_rows(rows, h, st),
{
    assert(update_tx_rows(update_tx_rows(rows, h, st), h, st) =~= update_tx_rows(rows, h, st));
}

/// Every store operation keeps the stored transactions, in place and with
/// their block times.
pub proof fn lemma_store_ops_keep_rows(rows: Seq<TxRow>, row: TxRow, h: Seq<char>, st: IndexingStatus)
    ensures
        keeps_rows(rows, rows),
        keeps_rows(rows, insert_tx_rows(rows, row)),
        keeps_rows(rows, update_tx_rows(rows, h, st)),
{
}

/// Keeping rows composes over a sequence of operations.
pub proof fn lemma_keeps_rows_transitive(a: Seq<TxRow>, b: Seq<TxRow>, c: Seq<TxRow>)
    requires
        keeps_rows(a, b),
        keeps_rows(b, c),
    ensures
        keeps_rows(a, c),
{
    assert forall|i: int| 0 <= i < a.len() implies (#[trigger] c[i]).hash == a[i].hash && c[i].blocktime
        == a[i].blocktime by {
        assert(b[i].hash == a[i].hash);
    }
}

/// The cursor never moves back: when the store only gains rows and keeps
/// their block times, the largest block time does not decrease.
pub proof fn lemma_cursor_monotonic(old: Seq<TxRow>, new: Seq<TxRow>, before: i64, after: i64)
    requires
        keeps_rows(old, new),
        cursor_blocktime(old, before),
        cursor_blocktime(new, after),
    ensures
        before <= after,
{
    let i = choose|i: int| 0 <= i < old.len() && (#[trigger] old[i]).blocktime == before;
    assert(new[i].blocktime == before);
}

/// A write to the transactions that the pipeline makes: recording a fetched
/// transaction, or setting a transaction's status.
pub enum TxWrite {
    Insert(TxRow),
    Update(Seq<char>, IndexingStatus),
}

/// The transaction rows after a sequence of writes, in order.
pub open spec fn apply_writes(rows: Seq<TxRow>, ws: Seq<TxWrite>) -> Seq<TxRow>
    decreases ws.len(),
{
    if ws.len() == 0 {
        rows
    } else {
        let r = match ws[0] {
            TxWrite::Insert(row) => insert_tx_rows(rows, row),
            TxWrite::Update(h, st) => update_tx_rows(rows, h, st),
        };
        apply_writes(r, ws.drop_first())
    }
}

/// Any sequence of writes keeps the stored transactions in place with their
/// block times.
pub proof fn lemma_writes_keep_rows(rows: Seq<TxRow>, ws: Seq<TxWrite>)
    ensures
        keeps_rows(rows, apply_writes(rows, ws)),
    decreases ws.len(),
{
    if ws.len() > 0 {
        let r = match ws[0] {
            TxWrite::Insert(row) => insert_tx_rows(rows, row),
            TxWrite::Update(h, st) => update_tx_rows(rows, h, st),
        };
        match ws[0] {
            TxWrite::Insert(row) => lemma_store_ops_keep_rows(rows, row, Seq::empty(), IndexingStatus::Pending),
            TxWrite::Update(h, st) => lemma_store_ops_keep_rows(
                rows,
                TxRow { hash: h, blocktime: 0, status: st, timestamp: 0 },
                h,
                st,
            ),
        }
        lemma_writes_keep_rows(r, ws.drop_first());
        lemma_keeps_rows_transitive(rows, r, apply_writes(r, ws.drop_first()));
    }
}

/// The cursor never moves back over any run of the pipeline's writes, such
/// as one or more iterations: the largest block time after them is at least
/// the largest before.
pub proof fn lemma_cursor_monotonic_over_writes(rows: Seq<TxRow>, ws: Seq<TxWrite>, before: i64, after: i64)
    requires
        cursor_blocktime(rows, before),
        cursor_blocktime(apply_writes(rows, ws), after),
    ensures
        before <= after,
{
    lemma_writes_keep_rows(rows, ws);
    lemma_cursor_monotonic(rows, apply_writes(rows, ws), before, after);
}

/// Transactions and instructions, held in memory.
#[derive(Debug)]
pub struct MemoryStore {
    pub transactions: Vec<TxRecord>,
    pub instructions: Vec<InstructionRecord>,
}

impl MemoryStore {
    pub open spec fn tx_rows(&self) -> Seq<TxRow> {
        self.transactions@.map_values(|r: TxRecord| r@)
    }

    pub open spec fn instruction_rows(&self) -> Seq<InstructionRow> {
        self.instructions@.map_values(|r: InstructionRecord| r@)
    }

    /// An empty store.
    pub fn new() -> (r: MemoryStore)
        ensures
            r.tx_rows().len() == 0,
            r.instruction_rows().len() == 0,
    {
        MemoryStore { transactions: Vec::new(), instructions: Vec::new() }
    }

    fn find_tx(&self, h: &String) -> (r: Option<usize>)
        ensures
            r is None <==> !has_tx(self.tx_rows(), h@),
            r matches Some(i) ==> i < self.tx_rows().len() && self.tx_rows()[i as int].hash == h@,
    {
        let mut i: usize = 0;
        while i < self.transactions.len()
            invariant
                i <= self.transactions@.len(),
                forall|j: int| 0 <= j < i ==> (#[trigger] self.tx_rows()[j]).hash != h@,
            decreases self.transactions@.len() - i,
        {
            if self.transactions[i].hash == *h {
                return Some(i);
            }
            i = i + 1;
        }
        None
    }

    /// Inserts a transaction as pending; does nothing when its hash is stored.
    pub fn insert_tx(&mut self, tx: &Tx)
        ensures
            final(self).tx_rows() == insert_tx_rows(old(self).tx_rows(), tx_row(*tx)),
            final(self).instructions == old(self).instructions,
    {
        if self.find_tx(&tx.hash).is_none() {
            let rec = TxRecord {
                hash: tx.hash.clone(),
                blocktime: tx.blocktime,
                indexing_status: IndexingStatus::Pending,
                indexing_timestamp: tx.indexing_timestamp,
            };
            self.transactions.push(rec);
            assert(self.tx_rows() =~= old(self).tx_rows().push(tx_row(*tx)));
        }
    }

    /// Sets the status of the transaction with hash `hash`; does nothing when
    /// it is not stored.
    pub fn update_tx(&mut self, hash: &String, status: IndexingStatus)
        ensures
            final(self).tx_rows() == update_tx_rows(old(self).tx_rows(), hash@, status),
            final(self).instructions == old(self).instructions,
    {
        let mut i: usize = 0;
        while i < self.transactions.len()
            invariant
                i <= self.transactions@.len() == old(self).transactions@.len(),
                self.instructions == old(self).instructions,
                forall|j: int|
                    0 <= j < i ==> #[trigger] self.transactions@[j]@ == set_status(
                        old(self).transactions@[j]@,
                        hash@,
                        status,
                    ),
                forall|j: int| i <= j < self.transactions@.len() ==> #[trigger] self.transactions@[j] == old(self).transactions@[j],
            decreases self.transactions@.len() - i,
        {
            if self.transactions[i].hash == *hash {
                self.transactions[i].indexing_status = status;
            }
            i = i + 1;
        }
        assert(self.tx_rows() =~= update_tx_rows(old(self).tx_rows(), hash@, status));
    }

    fn find_instruction(&self, h: &String, id: u8) -> (r: bool)
        ensures
            r == has_instruction(self.instruction_rows(), h@, id),
    {
        let mut i: usize = 0;
        while i < self.instructions.len()
            invariant
                i <= self.instructions@.len(),
                forall|j: int|
                    0 <= j < i ==> !((#[trigger] self.instruction_rows()[j]).tx_hash == h@
                        && self.instruction_rows()[j].id == id),
            decreases self.instructions@.len() - i,
        {
            if self.instructions[i].id == id && self.instructions[i].tx_hash == *h {
                assert(self.instruction_rows()[i as int].tx_hash == h@);
                return true;
            }
            i = i + 1;
        }
        false
    }

    /// Inserts an instruction; does nothing when its key is stored.
    pub fn insert_instruction(&mut self, ix: &Instruction)
        ensures
            final(self).instruction_rows() == insert_instruction_rows(
                old(self).instruction_rows(),
                instruction_row(*ix),
            ),
            final(self).transactions == old(self).transactions,
    {
        if !self.find_instruction(&ix.tx_hash, ix.id) {
            let rec = InstructionRecord {
                tx_hash: ix.tx_hash.clone(),
                id: ix.id,
                program_id: ix.program_id.clone(),
                blocktime: ix.blocktime,
                data: ix.data.clone(),
            };
            self.instructions.push(rec);
            assert(self.instruction_rows() =~= old(self).instruction_rows().push(instruction_row(*ix)));
        }
    }

    /// The hash of a transaction with the largest block time, or `None` when
    /// no transaction is stored.
    pub fn most_recent_tx(&self) -> (r: Option<String>)
        ensures
            r is None <==> self.tx_rows().len() == 0,
            r matches Some(h) ==> most_recent(self.tx_rows(), h@),
    {
        if self.transactions.len() == 0 {
            return None;
        }
        let mut best: usize = 0;
        let mut i: usize = 1;
        while i < self.transactions.len()
            invariant
                1 <= i <= self.transactions@.len(),
                best < i,
                forall|j: int| 0 <= j < i ==> (#[trigger] self.tx_rows()[j]).blocktime <= self.tx_rows()[best as int].blocktime,
            decreases self.transactions@.len() - i,
        {
            if self.transactions[i].blocktime > self.transactions[best].blocktime {
                best = i;
            }
            i = i + 1;
        }
        let h = self.transactions[best].hash.clone();
        assert(self.tx_rows()[best as int].hash == h@);
        Some(h)
    }

    /// Whether the transaction with hash `signature` is stored and indexed.
    pub fn recorded_tx(&self, signature: &String) -> (r: bool)
        ensures
            r == recorded_tx_spec(self.tx_rows(), signature@),
    {
        let mut i: usize = 0;
        while i < self.transactions.len()
            invariant
                i <= self.transactions@.len(),
                forall|j: int|
                    0 <= j < i ==> !((#[trigger] self.tx_rows()[j]).hash == signature@
                        && self.tx_rows()[j].status == IndexingStatus::Indexed),
            decreases self.transactions@.len() - i,
        {
            if self.transactions[i].indexing_status == IndexingStatus::Indexed
                && self.transactions[i].hash == *signature {
                assert(self.tx_rows()[i as int].hash == signature@);
                return true;
            }
            i = i + 1;
        }
        false
    }

    /// Whether the instruction's key is stored.
    pub fn recorded_instruction(&self, ix: &Instruction) -> (r: bool)
        ensures
            r == has_instruction(self.instruction_rows(), ix.tx_hash@, ix.id),
    {
        self.find_instruction(&ix.tx_hash, ix.id)
    }
}

} // verus!
