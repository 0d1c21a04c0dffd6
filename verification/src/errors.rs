//! Error kinds shared by the building blocks of the runtime.

use vstd::prelude::*;

verus! {

/// Errors reported by the containers and the runtime.
#[derive(Clone, Copy, Debug, PartialEq, Eq, Structural)]
pub enum CommonErrors {
    /// Something failed without a more specific reason.
    GenericError,
    /// There is no space left in a bounded container.
    NoSpaceLeft,
    /// There is no data available right now.
    NoData,
    /// The operation was already done before.
    AlreadyDone,
    /// The operation timed out.
    Timeout,
    /// The operation was aborted.
    OperationAborted,
}

/// Errors of the runtime API.
#[derive(Clone, Copy, Debug, PartialEq, Eq, Structural)]
pub enum RuntimeErrors {
    /// An engine with the requested id was not built before.
    EngineNotAvailable,
    /// Could not get the return value from a future.
    ResultNotThere,
    /// There is currently no task running to wait for.
    NoTaskRunning,
    /// There is already a task running.
    TaskAlreadyRunning,
    /// No result is available.
    NoResultAvailable,
}

} // verus!
