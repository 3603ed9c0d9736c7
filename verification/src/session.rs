//! One WebSocket session: opened by a request, active once the upgrade
//! handshake succeeded, closed for good by the first event that ends it.

use vstd::prelude::*;
use crate::protocol::air_after;
use crate::protocol::ground_after;
use crate::protocol::is_violation;
use crate::protocol::outcome_fits;
use crate::protocol::BrokenithmSpec;
use crate::protocol::Inbound;
use crate::protocol::Outcome;
use crate::state::zeros;
use crate::state::InputState;

verus! {

/// Where a session stands.
#[derive(Clone, Copy, Debug, PartialEq, Eq, Structural)]
pub enum SessionPhase {
    /// The upgrade was asked for and is not settled.
    Open,
    /// The handshake succeeded: frames are read and written.
    Active,
    /// The session is over.
    Closed,
}

/// One session of a client.
#[derive(Clone, Copy, Debug, PartialEq, Eq, Structural)]
pub struct Session {
    pub phase: SessionPhase,
    pub spec: BrokenithmSpec,
}

/// Whether an inbound event ends an active session: a text frame of an
/// unknown length, a close frame, a transport error, or the stream's end.
pub open spec fn ends_session(event: Inbound) -> bool {
    match event {
        Inbound::Text(msg) => is_violation(msg@),
        Inbound::Other => false,
        Inbound::Close | Inbound::Failure | Inbound::End => true,
    }
}

/// The phase after the handshake was settled.
pub open spec fn phase_after_handshake(phase: SessionPhase, accepted: bool) -> SessionPhase {
    match phase {
        SessionPhase::Open => if accepted {
            SessionPhase::Active
        } else {
            SessionPhase::Closed
        },
        _ => phase,
    }
}

/// The phase after an inbound event.
pub open spec fn phase_after_event(phase: SessionPhase, event: Inbound) -> SessionPhase {
    match phase {
        SessionPhase::Active => if ends_session(event) {
            SessionPhase::Closed
        } else {
            SessionPhase::Active
        },
        _ => phase,
    }
}

impl Session {
    /// A session that waits for its handshake.
    pub fn open(spec: BrokenithmSpec) -> (session: Session)
        ensures
            session.phase == SessionPhase::Open,
            session.spec == spec,
    {
        Session { phase: SessionPhase::Open, spec }
    }

    /// Settles the handshake of an open session: it becomes active where
    /// the upgrade was accepted, closed where it failed. A session that is
    /// not open stays as it is.
    pub fn upgraded(&mut self, accepted: bool)
        ensures
            final(self).phase == phase_after_handshake(old(self).phase, accepted),
            final(self).spec == old(self).spec,
    {
        if self.phase == SessionPhase::Open {
            self.phase = if accepted {
                SessionPhase::Active
            } else {
                SessionPhase::Closed
            };
        }
    }

    /// Closes the session, whatever its phase: for a failed send, a closed
    /// outbound queue, or the end of a sibling task.
    pub fn close(&mut self)
        ensures
            final(self).phase == SessionPhase::Closed,
            final(self).spec == old(self).spec,
    {
        self.phase = SessionPhase::Closed;
    }

    /// Handles one inbound event. An active session decodes it into the
    /// input state under its layout and closes where the event ends it. A
    /// session that is not active reads nothing: the input state stays and
    /// the outcome is to stop.
    pub fn receive(&mut self, input: &mut InputState, event: &Inbound) -> (outcome: Outcome)
        ensures
            final(self).spec == old(self).spec,
            final(self).phase == phase_after_event(old(self).phase, *event),
            old(self).phase != SessionPhase::Active ==> *final(input) == *old(input) && outcome
                == Outcome::Stop,
            old(self).phase == SessionPhase::Active ==> (outcome == Outcome::Stop <==> ends_session(
                *event,
            )) && match *event {
                Inbound::Text(msg) => {
                    &&& final(input).ground@ == ground_after(old(input).ground@, msg@)
                    &&& final(input).air@ == air_after(old(input).air@, old(self).spec, msg@)
                    &&& outcome_fits(outcome, msg@)
                },
                Inbound::Close | Inbound::Failure => {
                    &&& final(input).ground@ == zeros(32)
                    &&& final(input).air@ == zeros(6)
                },
                Inbound::Other => *final(input) == *old(input) && outcome == Outcome::Continue,
                Inbound::End => *final(input) == *old(input),
            },
    {
        if self.phase != SessionPhase::Active {
            return Outcome::Stop;
        }
        let outcome = input.apply(self.spec, event);
        if let Outcome::Stop = outcome {
            self.phase = SessionPhase::Closed;
        }
        outcome
    }
}

/// A closed session stays closed: neither a handshake nor any inbound event
/// brings it back.
pub proof fn closed_is_final(event: Inbound, accepted: bool)
    ensures
        phase_after_event(SessionPhase::Closed, event) == SessionPhase::Closed,
        phase_after_handshake(SessionPhase::Closed, accepted) == SessionPhase::Closed,
{
}

/// A session becomes active in one way only: by an accepted handshake while
/// it is open.
pub proof fn active_only_by_handshake(phase: SessionPhase, event: Inbound, accepted: bool)
    requires
        phase != SessionPhase::Active,
    ensures
        phase_after_event(phase, event) != SessionPhase::Active,
        phase_after_handshake(phase, accepted) == SessionPhase::Active <==> (phase
            == SessionPhase::Open && accepted),
{
}

} // verus!
