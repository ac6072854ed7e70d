//! Expansion of a transaction into instructions, and the steps that deliver
//! them to the instruction hook and record them.
use vstd::prelude::*;
use crate::executor::ExecutorControlFlow;
use crate::fetcher::tx::{ParsedAccount, Tx};
use crate::processor::instruction::Instruction;
use crate::processor::processor_error::NativeProcessingError;

verus! {

/// Whether every index that the transaction's instructions use names one of
/// its accounts, and every instruction's position fits an instruction id.
pub open spec fn tx_indices_valid(tx: Tx) -> bool {
    &&& tx.instructions@.len() <= 256
    &&& forall|i: int|
        0 <= i < tx.instructions@.len() ==> {
            &&& (#[trigger] tx.instructions@[i]).program_id_index < tx.account_keys@.len()
            &&& forall|k: int|
                0 <= k < tx.instructions@[i].accounts@.len() ==> (#[trigger] tx.instructions@[i].accounts@[k])
                    < tx.account_keys@.len()
        }
}

/// Two accounts with the same key and flags.
pub open spec fn same_account(a: ParsedAccount, b: ParsedAccount) -> bool {
    a.pubkey@ == b.pubkey@ && a.writable == b.writable && a.signer == b.signer
}

/// Whether `ix` is the expansion of the transaction's instruction at position `i`.
pub open spec fn expands_to(ix: Instruction, tx: Tx, i: int) -> bool {
    let c = tx.instructions@[i];
    &&& ix.id == i
    &&& ix.tx_hash@ == tx.hash@
    &&& ix.program_id@ == tx.account_keys@[c.program_id_index as int].pubkey@
    &&& ix.blocktime == tx.blocktime
    &&& ix.data@ == c.data@
    &&& ix.account_keys@.len() == c.accounts@.len()
    &&& forall|k: int|
        0 <= k < c.accounts@.len() ==> same_account(
            #[trigger] ix.account_keys@[k],
            tx.account_keys@[c.accounts@[k] as int],
        )
}

/// Whether `ixs` is the expansion of every instruction of the transaction, in order.
pub open spec fn instructions_of(ixs: Seq<Instruction>, tx: Tx) -> bool {
    ixs.len() == tx.instructions@.len() && forall|i: int|
        0 <= i < ixs.len() ==> expands_to(#[trigger] ixs[i], tx, i)
}

/// Checks the indices of the transaction's instructions.
pub fn indices_valid(tx: &Tx) -> (r: bool)
    ensures
        r == tx_indices_valid(*tx),
{
    if tx.instructions.len() > 256 {
        return false;
    }
    let n = tx.account_keys.len();
    let mut i: usize = 0;
    while i < tx.instructions.len()
        invariant
            i <= tx.instructions@.len() <= 256,
            n == tx.account_keys@.len(),
            forall|j: int|
                0 <= j < i ==> {
                    &&& (#[trigger] tx.instructions@[j]).program_id_index < n
                    &&& forall|k: int|
                        0 <= k < tx.instructions@[j].accounts@.len() ==> (
                        #[trigger] tx.instructions@[j].accounts@[k]) < n
                },
        decreases tx.instructions@.len() - i,
    {
        let c = &tx.instructions[i];
        if c.program_id_index as usize >= n {
            return false;
        }
        let mut k: usize = 0;
        while k < c.accounts.len()
            invariant
                i < tx.instructions@.len(),
                k <= c.accounts@.len(),
                c == tx.instructions@[i as int],
                n == tx.account_keys@.len(),
                forall|q: int| 0 <= q < k ==> (#[trigger] c.accounts@[q]) < n,
            decreases c.accounts@.len() - k,
        {
            if c.accounts[k] as usize >= n {
                assert(tx.instructions@[i as int].accounts@[k as int] >= n);
                return false;
            }
            k = k + 1;
        }
        i = i + 1;
    }
    true
}

fn copy_account(a: &ParsedAccount) -> (r: ParsedAccount)
    ensures
        same_account(r, *a),
{
    ParsedAccount { pubkey: a.pubkey.clone(), writable: a.writable, signer: a.signer }
}

/// Expands a transaction into its instructions, in order: each takes its
/// program key and accounts from the transaction's accounts.
pub fn get_instructions(tx: &Tx) -> (r: Result<Vec<Instruction>, NativeProcessingError>)
    requires
        tx_indices_valid(*tx),
    ensures
        tx.instructions@.len() == 0 ==> r == Err::<Vec<Instruction>, _>(
            NativeProcessingError::TxWithoutInstructions,
        ),
        tx.instructions@.len() > 0 ==> (r matches Ok(ixs) && instructions_of(ixs@, *tx)),
{
    if tx.instructions.len() == 0 {
        return Err(NativeProcessingError::TxWithoutInstructions);
    }
    let mut ixs: Vec<Instruction> = Vec::new();
    let mut i: usize = 0;
    while i < tx.instructions.len()
        invariant
            tx_indices_valid(*tx),
            i <= tx.instructions@.len(),
            ixs@.len() == i,
            forall|j: int| 0 <= j < i ==> expands_to(#[trigger] ixs@[j], *tx, j),
        decreases tx.instructions@.len() - i,
    {
        let c = &tx.instructions[i];
        assert(c.program_id_index < tx.account_keys@.len());
        let mut accounts: Vec<ParsedAccount> = Vec::new();
        let mut k: usize = 0;
        while k < c.accounts.len()
            invariant
                tx_indices_valid(*tx),
                i < tx.instructions@.len(),
                c == tx.instructions@[i as int],
                k <= c.accounts@.len(),
                accounts@.len() == k,
                forall|q: int|
                    0 <= q < k ==> same_account(
                        #[trigger] accounts@[q],
                        tx.account_keys@[c.accounts@[q] as int],
                    ),
            decreases c.accounts@.len() - k,
        {
            assert(c.accounts@[k as int] < tx.account_keys@.len());
            let a = copy_account(&tx.account_keys[c.accounts[k] as usize]);
            accounts.push(a);
            k = k + 1;
        }
        let ix = Instruction::new(
            i as u8,
            tx.hash.clone(),
            tx.account_keys[c.program_id_index as usize].pubkey.clone(),
            tx.blocktime,
            accounts,
            c.data.clone(),
        );
        ixs.push(ix);
        i = i + 1;
    }
    Ok(ixs)
}

/// What became of an instruction that processing has gone past.
#[derive(Debug, PartialEq, Eq, Clone, Copy, Structural)]
pub enum InstructionOutcome {
    /// It had been recorded before; it was not delivered again.
    AlreadyRecorded,
    /// The instruction hook skipped it.
    Skipped,
    /// The hook passed it and it was recorded.
    Inserted,
}

/// Where the processing of a transaction stands.
#[derive(Debug, PartialEq, Eq, Clone, Copy, Structural)]
pub enum ProcessStage {
    /// Waiting to learn whether the current instruction is recorded.
    Lookup,
    /// Waiting for the instruction hook's decision.
    Hook,
    /// Waiting for the current instruction to be recorded.
    Insert,
    /// Every instruction has been handled.
    Finished,
    /// The hook stopped processing.
    Stopped,
    /// An instruction needed delivery but no executor is installed.
    Failed,
}

/// What the host reports back.
#[derive(Debug, PartialEq, Eq, Clone, Copy, Structural)]
pub enum ProcessEvent {
    /// Whether the current instruction is already recorded in the store.
    Recorded(bool),
    /// The instruction hook's decision on the current instruction.
    Hook(ExecutorControlFlow),
    /// The current instruction has been recorded.
    Inserted,
}

/// What the host does next.
#[derive(Debug, PartialEq, Eq, Clone, Copy, Structural)]
pub enum ProcessAction {
    /// Ask the store whether instruction `i` is recorded.
    CheckRecorded(usize),
    /// Deliver instruction `i` to the instruction hook.
    CallHook(usize),
    /// Record instruction `i` in the store.
    Insert(usize),
    /// Processing of the transaction is over; it may be marked indexed.
    Finish,
    /// Processing failed.
    Fail(NativeProcessingError),
}

/// The processing of one transaction's instructions, one at a time and in order.
pub struct TxProcessing {
    /// The transaction's instructions.
    pub instructions: Vec<Instruction>,
    /// Whether an executor is installed to receive instructions.
    pub has_executor: bool,
    /// Position of the current instruction.
    pub index: usize,
    pub stage: ProcessStage,
    /// What became of each instruction before the current one.
    pub handled: Ghost<Seq<InstructionOutcome>>,
}

/// The action that a processing state waits on.
pub open spec fn pending_action(stage: ProcessStage, index: usize) -> ProcessAction {
    match stage {
        ProcessStage::Lookup => ProcessAction::CheckRecorded(index),
        ProcessStage::Hook => ProcessAction::CallHook(index),
        ProcessStage::Insert => ProcessAction::Insert(index),
        ProcessStage::Finished | ProcessStage::Stopped => ProcessAction::Finish,
        ProcessStage::Failed => ProcessAction::Fail(NativeProcessingError::EmptyCb),
    }
}

/// The move past the current instruction with outcome `o`.
pub open spec fn advanced(s: TxProcessing, t: TxProcessing, a: ProcessAction, o: InstructionOutcome) -> bool {
    &&& t.handled@ == s.handled@.push(o)
    &&& t.index == s.index + 1
    &&& if t.index == s.instructions@.len() {
        t.stage == ProcessStage::Finished && a == ProcessAction::Finish
    } else {
        t.stage == ProcessStage::Lookup && a == ProcessAction::CheckRecorded(t.index)
    }
}

/// The same position, in stage `stage`, waiting on action `a`.
pub open spec fn stays(s: TxProcessing, t: TxProcessing, a: ProcessAction, stage: ProcessStage) -> bool {
    t.handled@ == s.handled@ && t.index == s.index && t.stage == stage && a == pending_action(stage, s.index)
}

/// One step of processing: from state `s` and the host's report `ev` to state
/// `t` and the host's next action `a`. A report that the state does not wait
/// for changes nothing and repeats the pending action.
pub open spec fn process_transition(s: TxProcessing, ev: ProcessEvent, t: TxProcessing, a: ProcessAction) -> bool {
    match (s.stage, ev) {
        (ProcessStage::Lookup, ProcessEvent::Recorded(true)) => advanced(s, t, a, InstructionOutcome::AlreadyRecorded),
        (ProcessStage::Lookup, ProcessEvent::Recorded(false)) => if s.has_executor {
            stays(s, t, a, ProcessStage::Hook)
        } else {
            stays(s, t, a, ProcessStage::Failed)
        },
        (ProcessStage::Hook, ProcessEvent::Hook(ExecutorControlFlow::Skip)) => advanced(s, t, a, InstructionOutcome::Skipped),
        (ProcessStage::Hook, ProcessEvent::Hook(ExecutorControlFlow::Pass)) => stays(s, t, a, ProcessStage::Insert),
        (ProcessStage::Hook, ProcessEvent::Hook(ExecutorControlFlow::Stop)) => stays(s, t, a, ProcessStage::Stopped),
        (ProcessStage::Insert, ProcessEvent::Inserted) => advanced(s, t, a, InstructionOutcome::Inserted),
        _ => stays(s, t, a, s.stage),
    }
}

/// Processing that has run to its end without a stop has handled every
/// instruction: each was recorded before, skipped by the hook, or recorded
/// after the hook passed it.
pub proof fn lemma_finished_handled_every_instruction(p: TxProcessing)
    requires
        p.wf(),
        p.stage == ProcessStage::Finished,
    ensures
        p.handled@.len() == p.instructions@.len(),
{
}

/// An instruction is counted as recorded only on the report that the store
/// recorded it, after the hook passed it.
pub proof fn lemma_inserted_only_on_report(s: TxProcessing, ev: ProcessEvent, t: TxProcessing, a: ProcessAction)
    requires
        s.wf(),
        process_transition(s, ev, t, a),
        t.handled@.len() == s.handled@.len() + 1,
        t.handled@.last() == InstructionOutcome::Inserted,
    ensures
        s.stage == ProcessStage::Insert,
        ev == ProcessEvent::Inserted,
{
}

impl TxProcessing {
    /// The machine's invariant.
    pub open spec fn wf(&self) -> bool {
        &&& self.index <= self.instructions@.len()
        &&& self.handled@.len() == self.index
        &&& self.instructions@.len() > 0
        &&& match self.stage {
            ProcessStage::Finished => self.index == self.instructions@.len(),
            ProcessStage::Lookup | ProcessStage::Insert => self.index < self.instructions@.len(),
            ProcessStage::Hook => self.index < self.instructions@.len() && self.has_executor,
            ProcessStage::Stopped | ProcessStage::Failed => self.index < self.instructions@.len(),
        }
    }

    /// Starts processing a transaction: expands it into instructions and asks
    /// about the first one. A transaction whose instructions name accounts it
    /// does not have is rejected.
    pub fn new(tx: &Tx, has_executor: bool) -> (r: Result<(TxProcessing, ProcessAction), NativeProcessingError>)
        ensures
            !tx_indices_valid(*tx) ==> r == Err::<(TxProcessing, ProcessAction), _>(
                NativeProcessingError::AccountIndexOutOfRange,
            ),
            tx_indices_valid(*tx) && tx.instructions@.len() == 0 ==> r == Err::<(TxProcessing, ProcessAction), _>(
                NativeProcessingError::TxWithoutInstructions,
            ),
            tx_indices_valid(*tx) && tx.instructions@.len() > 0 ==> (r matches Ok((p, a)) && {
                &&& p.wf()
                &&& instructions_of(p.instructions@, *tx)
                &&& p.has_executor == has_executor
                &&& p.index == 0
                &&& p.stage == ProcessStage::Lookup
                &&& a == ProcessAction::CheckRecorded(0)
            }),
    {
        if !indices_valid(tx) {
            return Err(NativeProcessingError::AccountIndexOutOfRange);
        }
        let instructions = get_instructions(tx)?;
        let p = TxProcessing {
            instructions,
            has_executor,
            index: 0,
            stage: ProcessStage::Lookup,
            handled: Ghost(Seq::empty()),
        };
        Ok((p, ProcessAction::CheckRecorded(0)))
    }

    fn advance(&mut self, o: InstructionOutcome) -> (r: ProcessAction)
        requires
            old(self).wf(),
            old(self).index < old(self).instructions@.len(),
        ensures
            final(self).instructions == old(self).instructions,
            final(self).has_executor == old(self).has_executor,
            advanced(*old(self), *final(self), r, o),
    {
        let n = self.instructions.len();
        self.handled = Ghost(self.handled@.push(o));
        self.index = self.index + 1;
        if self.index == n {
            self.stage = ProcessStage::Finished;
            ProcessAction::Finish
        } else {
            self.stage = ProcessStage::Lookup;
            ProcessAction::CheckRecorded(self.index)
        }
    }

    fn stay(&mut self, stage: ProcessStage) -> (r: ProcessAction)
        ensures
            final(self).instructions == old(self).instructions,
            final(self).has_executor == old(self).has_executor,
            stays(*old(self), *final(self), r, stage),
    {
        self.stage = stage;
        match stage {
            ProcessStage::Lookup => ProcessAction::CheckRecorded(self.index),
            ProcessStage::Hook => ProcessAction::CallHook(self.index),
            ProcessStage::Insert => ProcessAction::Insert(self.index),
            ProcessStage::Finished | ProcessStage::Stopped => ProcessAction::Finish,
            ProcessStage::Failed => ProcessAction::Fail(NativeProcessingError::EmptyCb),
        }
    }

    /// Takes the host's report on the pending action and returns the next action.
    pub fn step(&mut self, ev: ProcessEvent) -> (r: ProcessAction)
        requires
            old(self).wf(),
        ensures
            final(self).wf(),
            final(self).instructions == old(self).instructions,
            final(self).has_executor == old(self).has_executor,
            process_transition(*old(self), ev, *final(self), r),
    {
        match (self.stage, ev) {
            (ProcessStage::Lookup, ProcessEvent::Recorded(true)) => self.advance(
                InstructionOutcome::AlreadyRecorded,
            ),
            (ProcessStage::Lookup, ProcessEvent::Recorded(false)) => {
                if self.has_executor {
                    self.stay(ProcessStage::Hook)
                } else {
                    self.stay(ProcessStage::Failed)
                }
            },
            (ProcessStage::Hook, ProcessEvent::Hook(ExecutorControlFlow::Skip)) => self.advance(
                InstructionOutcome::Skipped,
            ),
            (ProcessStage::Hook, ProcessEvent::Hook(ExecutorControlFlow::Pass)) => self.stay(
                ProcessStage::Insert,
            ),
            (ProcessStage::Hook, ProcessEvent::Hook(ExecutorControlFlow::Stop)) => self.stay(
                ProcessStage::Stopped,
            ),
            (ProcessStage::Insert, ProcessEvent::Inserted) => self.advance(
                InstructionOutcome::Inserted,
            ),
            _ => {
                let stage = self.stage;
                self.stay(stage)
            },
        }
    }

    /// Whether processing is over such that the transaction is marked indexed:
    /// every instruction handled, or the hook stopped.
    pub fn may_mark_indexed(&self) -> (r: bool)
        ensures
            r == (self.stage == ProcessStage::Finished || self.stage == ProcessStage::Stopped),
    {
        match self.stage {
            ProcessStage::Finished | ProcessStage::Stopped => true,
            _ => false,
        }
    }
}

} // verus!
