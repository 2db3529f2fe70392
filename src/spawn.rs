//! A task-spawn handle backed by tokio's default executor.
use vstd::prelude::*;

verus! {

#[verifier::external_type_specification]
#[verifier::external_body]
pub struct ExSpawnError(tokio_executor::SpawnError);

/// Relies on `tokio_executor::SpawnError::is_shutdown`, which reads a flag of
/// the error and cannot fail.
pub assume_specification[ tokio_executor::SpawnError::is_shutdown ](e: &tokio_executor::SpawnError) -> bool;

/// Relies on `tokio_executor::DefaultExecutor::current` and its
/// `Executor::status`: the answer depends on which executor, if any, is
/// installed on this thread, so nothing is promised of it.
#[verifier::external_body]
fn default_executor_status() -> (r: Result<(), tokio_executor::SpawnError>) {
    tokio_executor::Executor::status(&tokio_executor::DefaultExecutor::current())
}

/// Why the executor refused, or would refuse, more work.
#[derive(PartialEq, Eq, Structural, Debug, Clone, Copy)]
pub enum SpawnErrorKind {
    /// The executor is shut down or absent.
    Shutdown,
    /// The executor failed for another reason; the host environment is broken.
    Fault,
}

/// The error kind that an executor failure maps to.
pub open spec fn kind_of_failure(is_shutdown: bool) -> SpawnErrorKind {
    if is_shutdown {
        SpawnErrorKind::Shutdown
    } else {
        SpawnErrorKind::Fault
    }
}

/// The generic status that an executor's report maps to; the error of the
/// report says whether the executor is cleanly shut down.
pub open spec fn status_of_report(report: Result<(), bool>) -> Result<(), SpawnErrorKind> {
    match report {
        Ok(()) => Ok(()),
        Err(is_shutdown) => Err(kind_of_failure(is_shutdown)),
    }
}

/// A spawner that delegates to tokio's default executor for the current
/// thread. It holds no state of its own.
#[derive(Debug, Clone, Copy)]
pub struct TokioDefaultSpawn;

impl TokioDefaultSpawn {
    /// Maps an executor's report, whose error says whether the executor is
    /// cleanly shut down, to the generic status.
    pub fn map_executor_result(report: Result<(), bool>) -> (r: Result<(), SpawnErrorKind>)
        ensures
            r == status_of_report(report),
    {
        match report {
            Ok(()) => Ok(()),
            Err(is_shutdown) => {
                if is_shutdown {
                    Err(SpawnErrorKind::Shutdown)
                } else {
                    Err(SpawnErrorKind::Fault)
                }
            },
        }
    }

    /// Whether the default executor can take more work now: `Ok`, or the
    /// kind of its failure. A clean shutdown, or no executor on this thread,
    /// gives `Shutdown`; any other failure gives `Fault`.
    pub fn status(&self) -> (r: Result<(), SpawnErrorKind>)
        ensures
            exists|report: Result<(), bool>| r == status_of_report(report),
    {
        let report = match default_executor_status() {
            Ok(()) => Ok(()),
            Err(e) => Err(e.is_shutdown()),
        };
        let r = Self::map_executor_result(report);
        assert(r == status_of_report(report));
        r
    }
}

} // verus!
