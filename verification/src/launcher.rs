//! The launcher's decision: what application setup does with the outcome of
//! starting the backend process.
//!
//! Resolving and spawning the executable is plain OS work and happens outside
//! the library; setup hands the library the result and acts on the plan
//! returned here.

use vstd::prelude::*;
use vstd::string::StringExecFns;

verus! {

/// Token standing for one running backend process. At most one exists per
/// application run; it is owned by the setup routine alone.
#[derive(Clone, Copy, PartialEq, Eq, Structural, Debug)]
pub struct ProcessHandle {
    pub id: u64,
}

/// Why the backend could not be started.
#[derive(Clone, Copy, PartialEq, Eq, Structural, Debug)]
pub enum LaunchError {
    /// No sidecar executable is configured under the backend's logical name.
    SidecarNotConfigured,
    /// The executable was resolved but the OS could not spawn it.
    SpawnFailed,
}

/// What application setup does next.
#[derive(Clone, Copy, PartialEq, Eq, Structural, Debug)]
pub enum SetupOutcome {
    /// The backend is running: keep its handle and schedule the relay task.
    Started(ProcessHandle),
    /// Fatal startup failure: abort the whole application, schedule nothing.
    Aborted(LaunchError),
}

/// Whether the plan schedules the long-lived relay task.
pub open spec fn relay_scheduled(o: SetupOutcome) -> bool {
    o is Started
}

/// Decides setup from the launch result: a running backend keeps its handle
/// and gets the relay scheduled; a launch failure is fatal, the application
/// aborts and the relay is never scheduled.
pub fn plan_setup(launch: Result<ProcessHandle, LaunchError>) -> (o: SetupOutcome)
    ensures
        launch matches Ok(h) ==> o == SetupOutcome::Started(h),
        launch matches Err(e) ==> o == SetupOutcome::Aborted(e),
        relay_scheduled(o) <==> launch is Ok,
{
    match launch {
        Ok(h) => SetupOutcome::Started(h),
        Err(e) => SetupOutcome::Aborted(e),
    }
}

impl LaunchError {
    /// The diagnostic shown when the application aborts over this failure.
    pub fn message(&self) -> (r: String)
        ensures
            *self is SidecarNotConfigured ==> r@ == "sidecar configuration for the backend was not found"@,
            *self is SpawnFailed ==> r@ == "the backend process could not be started"@,
    {
        match self {
            LaunchError::SidecarNotConfigured => String::from_str(
                "sidecar configuration for the backend was not found",
            ),
            LaunchError::SpawnFailed => String::from_str("the backend process could not be started"),
        }
    }
}

} // verus!
