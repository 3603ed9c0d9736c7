//! The controller state: the input readings and the LED brightness values.

use vstd::prelude::*;

verus! {

/// Current input readings: one byte per ground cell and per air sensor.
#[derive(Clone, Copy, Debug, PartialEq, Eq)]
pub struct InputState {
    pub ground: [u8; 32],
    pub air: [u8; 6],
}

/// Current LED brightness, one byte per ground cell.
#[derive(Clone, Copy, Debug, PartialEq, Eq)]
pub struct LightsState {
    pub ground: [u8; 32],
}

/// The whole controller state.
#[derive(Clone, Copy, Debug, PartialEq, Eq)]
pub struct ControllerState {
    pub input: InputState,
    pub lights: LightsState,
}

/// A sequence of `n` zero bytes.
pub open spec fn zeros(n: nat) -> Seq<u8> {
    Seq::new(n, |i: int| 0u8)
}

impl InputState {
    /// All ground cells inactive and no air sensor covered.
    pub fn new() -> (input: InputState)
        ensures
            input.ground@ == zeros(32),
            input.air@ == zeros(6),
    {
        let input = InputState { ground: [0u8; 32], air: [0u8; 6] };
        assert(input.ground@ =~= zeros(32));
        assert(input.air@ =~= zeros(6));
        input
    }

    /// Releases every ground cell and every air sensor, whatever they held.
    pub fn reset(&mut self)
        ensures
            final(self).ground@ == zeros(32),
            final(self).air@ == zeros(6),
    {
        let mut i: usize = 0;
        while i < 32
            invariant
                i <= 32,
                forall|k: int| 0 <= k < i ==> self.ground@[k] == 0u8,
            decreases 32 - i,
        {
            self.ground[i] = 0u8;
            i += 1;
        }
        let mut j: usize = 0;
        while j < 6
            invariant
                j <= 6,
                forall|k: int| 0 <= k < 32 ==> self.ground@[k] == 0u8,
                forall|k: int| 0 <= k < j ==> self.air@[k] == 0u8,
            decreases 6 - j,
        {
            self.air[j] = 0u8;
            j += 1;
        }
        assert(self.ground@ =~= zeros(32));
        assert(self.air@ =~= zeros(6));
    }
}

impl LightsState {
    /// All LEDs dark.
    pub fn new() -> (lights: LightsState)
        ensures
            lights.ground@ == zeros(32),
    {
        let lights = LightsState { ground: [0u8; 32] };
        assert(lights.ground@ =~= zeros(32));
        lights
    }

    /// The payload of one LED frame: a copy of the brightness values, one
    /// byte per ground cell.
    pub fn frame(&self) -> (bytes: Vec<u8>)
        ensures
            bytes@ == self.ground@,
            bytes@.len() == 32,
    {
        let mut bytes: Vec<u8> = Vec::new();
        let mut i: usize = 0;
        while i < 32
            invariant
                i <= 32,
                bytes@.len() == i,
                forall|k: int| 0 <= k < i ==> bytes@[k] == self.ground@[k],
            decreases 32 - i,
        {
            bytes.push(self.ground[i]);
            i += 1;
        }
        assert(bytes@ =~= self.ground@);
        bytes
    }
}

impl ControllerState {
    /// A state with every array zeroed.
    pub fn new() -> (state: ControllerState)
        ensures
            state.input.ground@ == zeros(32),
            state.input.air@ == zeros(6),
            state.lights.ground@ == zeros(32),
    {
        ControllerState { input: InputState::new(), lights: LightsState::new() }
    }
}

} // verus!
