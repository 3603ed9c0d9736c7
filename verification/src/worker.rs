//! The lifecycle of a worker: what stopping it has to do, given whether it
//! was stopped before.

use vstd::prelude::*;

verus! {

/// Whether a worker's job still runs.
#[derive(Clone, Copy, Debug, PartialEq, Eq, Structural)]
pub enum Phase {
    /// The job was launched and has not been stopped.
    Running,
    /// The job was told to stop and has been waited for.
    Stopped,
}

/// What a call of `stop` has to carry out.
#[derive(Clone, Copy, Debug, PartialEq, Eq, Structural)]
pub enum StopStep {
    /// Raise the stop signal, then wait until the job has exited.
    SignalAndJoin,
    /// Nothing: the job has exited already.
    Nothing,
}

/// The lifecycle of one worker.
#[derive(Clone, Copy, Debug, PartialEq, Eq, Structural)]
pub struct Lifecycle {
    pub phase: Phase,
}

/// The lifecycle after a stop.
pub open spec fn after_stop(life: Lifecycle) -> Lifecycle {
    Lifecycle { phase: Phase::Stopped }
}

/// What a stop carries out in the given lifecycle.
pub open spec fn stop_step_of(life: Lifecycle) -> StopStep {
    match life.phase {
        Phase::Running => StopStep::SignalAndJoin,
        Phase::Stopped => StopStep::Nothing,
    }
}

impl Lifecycle {
    /// The lifecycle of a worker whose job was just launched.
    pub fn started() -> (life: Lifecycle)
        ensures
            life.phase == Phase::Running,
    {
        Lifecycle { phase: Phase::Running }
    }

    /// Whether the job still runs.
    pub fn is_running(&self) -> (running: bool)
        ensures
            running == (self.phase == Phase::Running),
    {
        self.phase == Phase::Running
    }

    /// Stops the worker: marks it stopped and says what the caller has to
    /// carry out before it returns. A running worker is signalled and
    /// joined; a stopped one needs nothing.
    pub fn stop(&mut self) -> (step: StopStep)
        ensures
            *final(self) == after_stop(*old(self)),
            step == stop_step_of(*old(self)),
    {
        let step = match self.phase {
            Phase::Running => StopStep::SignalAndJoin,
            Phase::Stopped => StopStep::Nothing,
        };
        self.phase = Phase::Stopped;
        step
    }
}

/// Stopping is idempotent: a second stop changes nothing and carries
/// nothing out, and a worker is signalled and joined at most once.
pub proof fn stop_is_idempotent(life: Lifecycle)
    ensures
        after_stop(after_stop(life)) == after_stop(life),
        stop_step_of(after_stop(life)) == StopStep::Nothing,
        stop_step_of(life) == StopStep::SignalAndJoin <==> life.phase == Phase::Running,
{
}

} // verus!
