//! The liveness protocol: when an instance counts as alive, and what the
//! heartbeat entry point decides for each combination of an instance's
//! status flags.
//!
//! A monitor wakes every `HEARTBEAT_WINDOW_SECS` seconds; an instance is
//! alive exactly while the latest heartbeat is younger than that window.

use crate::HEARTBEAT_WINDOW_SECS;
use crate::instance::Instance;
use vstd::prelude::*;

verus! {

/// Whether a heartbeat last seen at `last_heartbeat` still counts at `now`:
/// strictly less than the window has elapsed. A clock reading older than
/// the heartbeat itself also counts as alive.
pub open spec fn spec_alive(last_heartbeat: u64, now: u64) -> bool {
    (now as int) < (last_heartbeat as int) + (HEARTBEAT_WINDOW_SECS as int)
}

/// Whether `instance` counts as alive at time `now` (seconds since epoch).
pub fn is_server_alive(instance: &Instance, now: u64) -> (r: bool)
    ensures
        r == spec_alive(instance.last_heartbeat, now),
{
    if now >= instance.last_heartbeat {
        now - instance.last_heartbeat < HEARTBEAT_WINDOW_SECS
    } else {
        true
    }
}

/// Law: the liveness window is exact. An instance whose last heartbeat was
/// at `t` is still alive nine seconds later, and no longer alive ten
/// seconds later.
pub proof fn lemma_heartbeat_window(t: u64)
    requires
        t as int + 10 <= u64::MAX as int,
    ensures
        spec_alive(t, (t + 9) as u64),
        !spec_alive(t, (t + 10) as u64),
{
}

/// What the heartbeat entry point does for a recognized instance.
#[derive(Clone, Copy, Debug, PartialEq, Eq, Structural)]
pub enum HeartbeatAction {
    /// No monitor is running and the instance is started: claim the monitor
    /// slot, record the beat, and spawn the periodic liveness check.
    StartMonitor,
    /// A monitor is already running: just refresh the timestamp.
    Beat,
    /// The instance is not started, so no session should exist: attempt a
    /// defensive stop of the stray session.
    StopStray,
}

/// The decision the heartbeat entry point takes for `i`.
pub open spec fn spec_heartbeat_action(i: Instance) -> HeartbeatAction {
    if i.started && !i.heartbeat_started {
        HeartbeatAction::StartMonitor
    } else if i.started {
        HeartbeatAction::Beat
    } else {
        HeartbeatAction::StopStray
    }
}

/// Decides what to do with an inbound heartbeat for `instance`. The caller
/// reads the decision and performs the matching transition under the same
/// hold of the instance's lock.
pub fn heartbeat_action(instance: &Instance) -> (a: HeartbeatAction)
    ensures
        a == spec_heartbeat_action(*instance),
{
    if instance.started && !instance.heartbeat_started {
        HeartbeatAction::StartMonitor
    } else if instance.started {
        HeartbeatAction::Beat
    } else {
        HeartbeatAction::StopStray
    }
}

} // verus!
