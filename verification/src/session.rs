//! The light session's lifecycle as a state machine.  The session owns
//! one device handle from discovery to the first fault; it never
//! reconnects on its own — rebuilding is the supervisor's job, so a
//! faulted session is terminal.

use vstd::prelude::*;
use crate::supervisor::FaultReason;

verus! {

/// Where a session stands in its lifecycle.
#[derive(Clone, Copy, PartialEq, Eq, Structural, Debug)]
pub enum SessionPhase {
    /// No discovery attempted yet.
    Uninitialized,
    /// Scanning for the peripheral and resolving its characteristic.
    Discovering,
    /// Handle resolved; ready to send command frames.
    Connected,
    /// Terminal for this session instance: the handle is invalid and the
    /// supervisor must rebuild from discovery.
    Faulted(FaultReason),
}

/// What the caller observed while driving the session.
#[derive(Clone, Copy, PartialEq, Eq, Structural, Debug)]
pub enum SessionEvent {
    /// Discovery has been started.
    DiscoveryStarted,
    /// Adapter, peripheral and command characteristic were all resolved.
    DiscoverySucceeded,
    /// Discovery or connection failed for the given reason.
    DiscoveryFailed(FaultReason),
    /// A command frame was written without error.
    WriteSucceeded,
    /// A write to the command characteristic failed.
    WriteFailed,
}

/// The lifecycle: Uninitialized → Discovering → Connected → (sending)* →
/// Faulted.  A faulted session ignores every further event; an event that
/// does not belong to the current phase changes nothing.
pub open spec fn spec_session_step(phase: SessionPhase, event: SessionEvent) -> SessionPhase {
    match phase {
        SessionPhase::Uninitialized => match event {
            SessionEvent::DiscoveryStarted => SessionPhase::Discovering,
            _ => phase,
        },
        SessionPhase::Discovering => match event {
            SessionEvent::DiscoverySucceeded => SessionPhase::Connected,
            SessionEvent::DiscoveryFailed(reason) => SessionPhase::Faulted(reason),
            _ => phase,
        },
        SessionPhase::Connected => match event {
            SessionEvent::WriteSucceeded => SessionPhase::Connected,
            SessionEvent::WriteFailed => SessionPhase::Faulted(FaultReason::WriteFailed),
            _ => phase,
        },
        SessionPhase::Faulted(_) => phase,
    }
}

/// Advances the session lifecycle by one observed event.
pub fn session_step(phase: SessionPhase, event: SessionEvent) -> (next: SessionPhase)
    ensures
        next == spec_session_step(phase, event),
{
    match phase {
        SessionPhase::Uninitialized => match event {
            SessionEvent::DiscoveryStarted => SessionPhase::Discovering,
            _ => phase,
        },
        SessionPhase::Discovering => match event {
            SessionEvent::DiscoverySucceeded => SessionPhase::Connected,
            SessionEvent::DiscoveryFailed(reason) => SessionPhase::Faulted(reason),
            _ => phase,
        },
        SessionPhase::Connected => match event {
            SessionEvent::WriteSucceeded => SessionPhase::Connected,
            SessionEvent::WriteFailed => SessionPhase::Faulted(FaultReason::WriteFailed),
            _ => phase,
        },
        SessionPhase::Faulted(_) => phase,
    }
}

/// A faulted session is terminal: no event whatever revives it — in
/// particular the session never reconnects on its own.
pub proof fn lemma_faulted_is_terminal(reason: FaultReason, event: SessionEvent)
    ensures
        spec_session_step(SessionPhase::Faulted(reason), event) == SessionPhase::Faulted(reason),
{
}

/// Sending keeps a session connected until the first failed write, and a
/// failed write faults it at once.
pub proof fn lemma_write_outcomes()
    ensures
        spec_session_step(SessionPhase::Connected, SessionEvent::WriteSucceeded)
            == SessionPhase::Connected,
        spec_session_step(SessionPhase::Connected, SessionEvent::WriteFailed)
            == SessionPhase::Faulted(FaultReason::WriteFailed),
{
}

} // verus!
