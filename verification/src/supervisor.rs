//! The supervisor's restart policy and the fault taxonomy it acts on.
//! Every fault of a run is session-fatal and handled the same way: the
//! run's device handle and loop state are discarded and a new run starts
//! from discovery.  Only an explicit stop ends the process.

use vstd::prelude::*;

verus! {

/// Why a run ended ahead of an explicit stop.  Anything not classified
/// as a transient capture stall is session-fatal.
#[derive(Clone, Copy, PartialEq, Eq, Structural, Debug)]
pub enum FaultReason {
    /// No BLE adapter was available at all.
    NoAdapter,
    /// No scanned peripheral advertised a matching name within the window.
    NoPeripheral,
    /// The peripheral refused the connection.
    ConnectFailed,
    /// The connected peripheral exposes no characteristic with the
    /// configured identifier.
    NoCharacteristic,
    /// A write to the command characteristic failed.
    WriteFailed,
    /// The capture backend reported a real error (not a pending frame).
    CaptureFailed,
}

/// How one supervised run ended.
#[derive(Clone, Copy, PartialEq, Eq, Structural, Debug)]
pub enum RunOutcome {
    /// The explicit, externally triggered stop condition was observed.
    Stopped,
    /// The run hit an unrecoverable fault.
    Fault(FaultReason),
}

/// What the supervisor does next.
#[derive(Clone, Copy, PartialEq, Eq, Structural, Debug)]
pub enum SupervisorAction {
    /// Exit the process cleanly.
    Exit,
    /// Discard the run's device handle and loop state and rebuild from
    /// discovery, immediately, with no backoff and no retry limit.
    Restart,
}

/// The restart policy: a clean stop exits, every fault rebuilds.
pub open spec fn spec_next_action(outcome: RunOutcome) -> SupervisorAction {
    match outcome {
        RunOutcome::Stopped => SupervisorAction::Exit,
        RunOutcome::Fault(_) => SupervisorAction::Restart,
    }
}

/// Decides, after one run, whether to exit or to rebuild the session:
/// exit exactly on a clean stop, restart on every fault.
pub fn next_action(outcome: &RunOutcome) -> (action: SupervisorAction)
    ensures
        action == spec_next_action(*outcome),
        action == SupervisorAction::Exit <==> *outcome == RunOutcome::Stopped,
{
    match outcome {
        RunOutcome::Stopped => SupervisorAction::Exit,
        RunOutcome::Fault(_) => SupervisorAction::Restart,
    }
}

} // verus!
