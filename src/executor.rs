//! The control-flow values that processing hooks return.
use vstd::prelude::*;

verus! {

/// What a hook decides about the current unit of work.
#[derive(Debug, PartialEq, Eq, Clone, Copy, Structural)]
pub enum ExecutorControlFlow {
    /// Abandon the current unit and move to the next one.
    Skip,
    /// Continue normally.
    Pass,
    /// Stop the current loop.
    Stop,
}

/// A control-flow decision with a payload; hooks that may redirect the
/// pipeline carry an optional substitute result in `data`.
#[derive(Debug, PartialEq, Eq, Clone, Copy)]
pub struct ControlFlowWithData<D> {
    pub control_flow: ExecutorControlFlow,
    pub data: D,
}

} // verus!
