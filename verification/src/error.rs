//! The one error type of the core.

use vstd::prelude::*;

verus! {

/// Everything that can go wrong inside the core.
///
/// Each variant carries the text needed for diagnosis; none is ever swallowed
/// by the core itself.
#[derive(Debug, PartialEq, Eq)]
pub enum CoreError {
    /// No compatible GPU adapter was found.
    AdapterUnavailable,
    /// The driver refused to hand out a device and queue.
    DeviceRequestFailed { reason: String },
    /// A target was looked up that was never ensured.
    ResourceNotAllocated { label: String },
    /// A script unit could not be read, compiled or inspected.
    ScriptLoadError { unit: String, reason: String },
    /// A script callback raised during a notification round.
    ScriptHookError { unit: String, reason: String },
    /// The shared render-state lock was left inconsistent by an earlier panic.
    LockPoisoned,
}

} // verus!
