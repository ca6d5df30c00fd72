//! Typed errors of the counter library.
//!
//! Every kernel-service failure is returned to the caller with the step
//! that failed and the kernel's numeric status code; nothing is retried
//! and nothing is swallowed. Out-of-sequence calls are reported as state
//! violations instead of producing meaningless numbers.

use vstd::prelude::*;
use crate::event::Event;

verus! {

/// Failure of the counter database service.
#[derive(Copy, Clone, Debug, PartialEq, Eq, Structural)]
pub enum KpepError {
    UnknownError,
}

/// The kernel-service step a build or session error came from.
#[derive(Copy, Clone, Debug, PartialEq, Eq, Structural)]
pub enum ConfigStep {
    /// Creating a fresh configuration bound to the database.
    CreateConfig,
    /// Binding a resolved event into the configuration.
    BindEvent,
    /// Requesting exclusive use of all hardware counters.
    ForceCounters,
    /// Querying the counter class mask.
    QueryClasses,
    /// Querying the configurable register count.
    QueryRegisterCount,
    /// Querying the event-to-register map.
    QueryCounterMap,
    /// Querying the raw register programming values.
    QueryRegisterValues,
    /// Acquiring system-wide counter ownership.
    AcquireCounters,
    /// Writing the register values to hardware.
    WriteRegisters,
    /// Enabling system-wide counting.
    EnableCounting,
    /// Enabling counting for the calling thread.
    EnableThreadCounting,
    /// Disabling counting for the calling thread.
    DisableThreadCounting,
}

/// Errors of counter configuration and measurement.
#[derive(Copy, Clone, Debug, PartialEq, Eq, Structural)]
pub enum KperfError {
    /// A per-thread counter read failed with the given kernel status code.
    UnknownError(i32),
    /// Counter access requires elevated privileges.
    PermissionDenied,
    /// A kernel-service call failed while building or driving a counter
    /// configuration: the step, and the kernel's status code.
    PerfCounterBuildError(ConfigStep, i32),
    /// No candidate symbolic name of the event matched the database: the
    /// event is not supported on this hardware.
    EventNotFound(Event),
    /// An operation was invoked out of the required sequence.
    StateViolation,
    /// The kernel reported configuration data that contradicts itself
    /// (for example a configurable class mask with no registers).
    InconsistentConfig,
}

} // verus!
