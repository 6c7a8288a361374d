//! The fixed names, sentinel values and time intervals that the watcher
//! enforces on its target service.

use vstd::prelude::*;

verus! {

/// One reconciliation tick: how long the loop waits on its cancellation
/// channel before re-evaluating the target service.
pub const TICK_MILLIS: u64 = 1000;

/// The debounce pause between first observing the target Running and acting
/// on that observation.
pub const DEBOUNCE_MILLIS: u64 = 2000;

/// The pause between two status polls while waiting for the target to stop.
pub const STOP_POLL_MILLIS: u64 = 250;

/// How long the interactive stop command keeps polling before giving up.
pub const STOP_COMMAND_TIMEOUT_MILLIS: u64 = 10000;

/// Name of the target service in the service directory.
pub open spec fn spec_target_service_name() -> Seq<char> {
    "docker"@
}

pub fn target_service_name() -> (r: &'static str)
    ensures
        r@ == spec_target_service_name(),
{
    "docker"
}

/// The patch marker: the display name that brands a configuration as already
/// produced by this system.  It is the only state the watcher persists.
pub open spec fn spec_patch_marker() -> Seq<char> {
    "Docker Engine - Patched Process Isolation"@
}

pub fn patch_marker() -> (r: &'static str)
    ensures
        r@ == spec_patch_marker(),
{
    "Docker Engine - Patched Process Isolation"
}

/// The flag inserted right after the executable token.
pub open spec fn spec_exec_opt_flag() -> Seq<char> {
    "--exec-opt"@
}

pub fn exec_opt_flag() -> (r: &'static str)
    ensures
        r@ == spec_exec_opt_flag(),
{
    "--exec-opt"
}

/// The value inserted right after the flag.
pub open spec fn spec_exec_opt_value() -> Seq<char> {
    "isolation=process"@
}

pub fn exec_opt_value() -> (r: &'static str)
    ensures
        r@ == spec_exec_opt_value(),
{
    "isolation=process"
}

/// The description written onto the target service after a patch.
pub open spec fn spec_patched_description() -> Seq<char> {
    "Patched docker process isolated service"@
}

pub fn patched_description() -> (r: &'static str)
    ensures
        r@ == spec_patched_description(),
{
    "Patched docker process isolated service"
}

/// Name under which the watcher itself is registered as a service.
pub open spec fn spec_own_service_name() -> Seq<char> {
    "docker-process-isolation-patcher"@
}

pub fn own_service_name() -> (r: &'static str)
    ensures
        r@ == spec_own_service_name(),
{
    "docker-process-isolation-patcher"
}

} // verus!
