//! The Brokenithm job: the settings of one service and the controller state
//! that its sessions feed.

use vstd::prelude::*;
use crate::http::route_of;
use crate::http::Route;
use crate::protocol::BrokenithmSpec;
use crate::session::Session;
use crate::session::SessionPhase;
use crate::state::ControllerState;
use crate::state::LightsState;

verus! {

/// Milliseconds between two LED frames of a session.
pub const LIGHTS_INTERVAL_MS: u64 = 50;

/// A Brokenithm service: its layout, whether it pushes LED frames, its port,
/// and the controller state that it reads and writes.
#[derive(Clone, Copy, Debug, PartialEq, Eq)]
pub struct BrokenithmJob {
    pub state: ControllerState,
    pub spec: BrokenithmSpec,
    pub lights_enabled: bool,
    pub port: u16,
}

impl BrokenithmJob {
    /// A job on the given state and settings.
    pub fn new(
        state: &ControllerState,
        spec: &BrokenithmSpec,
        lights_enabled: &bool,
        port: &u16,
    ) -> (job: BrokenithmJob)
        ensures
            job.state == *state,
            job.spec == *spec,
            job.lights_enabled == *lights_enabled,
            job.port == *port,
    {
        BrokenithmJob {
            state: *state,
            spec: *spec,
            lights_enabled: *lights_enabled,
            port: *port,
        }
    }

    /// Routes one HTTP request under the job's layout.
    pub fn route(&self, method: &str, path: &str, has_upgrade: bool) -> (chosen: Route)
        ensures
            chosen@ == route_of(method@, path@, has_upgrade, self.spec),
    {
        crate::http::route(method, path, has_upgrade, self.spec)
    }

    /// Opens a session under the job's layout.
    pub fn session(&self) -> (session: Session)
        ensures
            session.phase == SessionPhase::Open,
            session.spec == self.spec,
    {
        Session::open(self.spec)
    }

    /// The payload of the LED frame that is due now: the given LED values,
    /// one byte per ground cell, where the job pushes LED frames; else none.
    pub fn lights_frame(&self, lights: &LightsState) -> (frame: Option<Vec<u8>>)
        ensures
            self.lights_enabled ==> frame is Some && frame->0@ == lights.ground@
                && frame->0@.len() == 32,
            !self.lights_enabled ==> frame is None,
    {
        if self.lights_enabled {
            Some(lights.frame())
        } else {
            None
        }
    }
}

} // verus!
