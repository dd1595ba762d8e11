//! The daemon's control logic: a two-state machine driven by a cancellation
//! flag that is sampled once per iteration boundary.
//!
//! The loop itself (the sleep between iterations and the signal handler
//! that raises the cancellation flag) is outside work; this module decides,
//! from the current state and the flag as observed at the boundary, what
//! the loop does next. While `Running`, an iteration evaluates the alert
//! flags; once `Terminating`, the loop exits and evaluates nothing further.

use vstd::prelude::*;

use crate::kvstore::MonitorError;
use crate::kvstore::load_thresholds;
use crate::model::AlertFlags;

verus! {

/// The daemon's state: `Running` keeps evaluating on schedule;
/// `Terminating` is terminal — the loop exits after the iteration in which
/// it was entered.
#[derive(Clone, Copy, Debug, PartialEq, Eq, Structural)]
pub enum DaemonState {
    Running,
    Terminating,
}

/// What the loop does next: evaluate the flags once more, or exit
/// gracefully.
#[derive(Clone, Copy, Debug, PartialEq, Eq, Structural)]
pub enum DaemonAction {
    Evaluate,
    Exit,
}

/// The state after one iteration boundary: a raised cancellation flag moves
/// the loop to `Terminating`, and `Terminating` is never left.
pub open spec fn spec_daemon_step(s: DaemonState, cancel_requested: bool) -> DaemonState {
    if cancel_requested || s is Terminating {
        DaemonState::Terminating
    } else {
        DaemonState::Running
    }
}

/// The action each state calls for: evaluate while `Running`, exit once
/// `Terminating`.
pub open spec fn spec_daemon_action(s: DaemonState) -> DaemonAction {
    match s {
        DaemonState::Running => DaemonAction::Evaluate,
        DaemonState::Terminating => DaemonAction::Exit,
    }
}

/// Advance the state machine across one iteration boundary, from the
/// cancellation flag as observed there.
pub fn daemon_step(s: DaemonState, cancel_requested: bool) -> (next: DaemonState)
    ensures
        next == spec_daemon_step(s, cancel_requested),
{
    if cancel_requested {
        DaemonState::Terminating
    } else {
        s
    }
}

/// What the loop must do in the given state.
pub fn daemon_action(s: DaemonState) -> (a: DaemonAction)
    ensures
        a == spec_daemon_action(s),
{
    match s {
        DaemonState::Running => DaemonAction::Evaluate,
        DaemonState::Terminating => DaemonAction::Exit,
    }
}

/// A cancellation ends the loop after the current iteration: whatever the
/// state, a boundary that observes the flag yields `Terminating`, whose
/// action is `Exit` — never another evaluation — and `Terminating` absorbs
/// every later signal, so no flag update follows the transition.
pub proof fn lemma_cancellation_ends_loop(s: DaemonState, cancel_requested: bool)
    ensures
        cancel_requested ==> spec_daemon_action(spec_daemon_step(s, cancel_requested))
            == DaemonAction::Exit,
        spec_daemon_step(DaemonState::Terminating, cancel_requested) == DaemonState::Terminating,
        spec_daemon_action(DaemonState::Terminating) == DaemonAction::Exit,
{
}

/// One `Running` iteration of the daemon: load the thresholds, evaluate the
/// persisted totals against them, and persist the flags. A store failure is
/// surfaced to the caller so it can be reported, but aborts only this
/// cycle: the loop goes on evaluating on schedule.
pub fn daemon_cycle(store: &nest::Store) -> (r: Result<AlertFlags, MonitorError>)
    requires
        crate::kvstore::monitor_store_wf(*store),
    ensures
        r matches Err(e) ==> e is StoreError,
{
    let thresholds = load_thresholds(store);
    crate::engine::evaluate_stored(store, &thresholds)
}

} // verus!
