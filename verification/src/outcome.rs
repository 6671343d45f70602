//! The engine's model of one chain execution outcome.

use vstd::prelude::*;

verus! {

/// The status an execution outcome finished with. Only the two success
/// variants make an outcome eligible for processing; every failure or
/// pending status is `Other`.
#[derive(Clone, Copy, Debug, PartialEq, Eq, Structural)]
pub enum ExecutionStatus {
    SuccessValue,
    SuccessReceiptId,
    Other,
}

impl ExecutionStatus {
    /// Whether this status is one of the two success variants.
    pub open spec fn is_success(self) -> bool {
        self == ExecutionStatus::SuccessValue || self == ExecutionStatus::SuccessReceiptId
    }
}

/// One execution outcome as the engine reads it: the executing account,
/// the final status, and the raw log strings the execution emitted, in
/// emission order.
pub struct ExecutionOutcome {
    pub executor_id: String,
    pub status: ExecutionStatus,
    pub logs: Vec<String>,
}

/// The mathematical content of an `ExecutionOutcome`.
pub ghost struct ExecutionOutcomeView {
    pub executor_id: Seq<char>,
    pub status: ExecutionStatus,
    pub logs: Seq<Seq<char>>,
}

impl View for ExecutionOutcome {
    type V = ExecutionOutcomeView;

    open spec fn view(&self) -> ExecutionOutcomeView {
        ExecutionOutcomeView {
            executor_id: self.executor_id@,
            status: self.status,
            logs: self.logs.deep_view(),
        }
    }
}

} // verus!
