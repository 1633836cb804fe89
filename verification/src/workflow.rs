//! Workflows that run in the background, and the states they report.
use vstd::prelude::*;

verus! {

/// A point-in-time picture of a running [`Workflow`].
pub trait WorkflowState {
    /// Result of the workflow on success.
    type Success;

    /// Result of the workflow on failure.
    type Error;

    /// The workflow's result, or `None` while it is still running.
    fn result(&self) -> Option<&Result<Self::Success, Self::Error>>;
}

/// The parameters of a workflow that can be run in the background.
pub trait Workflow {
    /// The state this workflow reports.
    type State: WorkflowState;
}

} // verus!
