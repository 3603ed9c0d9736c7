//! The Brokenithm text protocol: fixed-width frames whose length tells the
//! kind of message, decoded into the input state.

use vstd::prelude::*;
use vstd::string::StrSliceExecFns;
use vstd::string::StringExecFns;
use crate::state::InputState;
use crate::state::zeros;

verus! {

/// The controller layout that a Brokenithm client presents.
#[derive(Clone, Copy, Debug, PartialEq, Eq, Structural)]
pub enum BrokenithmSpec {
    Basic,
    GroundOnly,
    Nostalgia,
    HandTracking,
}

/// What the read side of a session receives.
#[derive(Clone, Debug, PartialEq, Eq)]
pub enum Inbound {
    /// A text frame.
    Text(String),
    /// A close control frame.
    Close,
    /// Any other frame (binary, ping, pong).
    Other,
    /// The transport reported an error.
    Failure,
    /// The stream of frames ended.
    End,
}

/// What the read side does after one inbound event.
#[derive(Clone, Debug, PartialEq, Eq)]
pub enum Outcome {
    /// Keep reading.
    Continue,
    /// Queue this text for the client, then keep reading.
    Reply(String),
    /// Stop reading: the session is over.
    Stop,
}

/// Pressure of a ground cell as one character encodes it.
pub open spec fn ground_level(c: char) -> u8 {
    if c == '1' { 255u8 } else { 0u8 }
}

/// Presence at an air sensor as one character encodes it.
pub open spec fn air_level(c: char) -> u8 {
    if c == '1' { 1u8 } else { 0u8 }
}

/// The character that encodes a ground cell's pressure.
pub open spec fn ground_char(level: u8) -> char {
    if level == 255u8 { '1' } else { '0' }
}

/// The 32 ground values that follow the tag of a full update.
pub open spec fn ground_segment(msg: Seq<char>) -> Seq<u8> {
    Seq::new(32, |i: int| ground_level(msg[1 + i]))
}

/// The 6 air values that a frame carries from position `start` on.
pub open spec fn air_segment(msg: Seq<char>, start: int) -> Seq<u8> {
    Seq::new(6, |i: int| air_level(msg[start + i]))
}

/// The characters that encode the given ground values.
pub open spec fn ground_text(ground: Seq<u8>) -> Seq<char> {
    Seq::new(ground.len(), |i: int| ground_char(ground[i]))
}

/// A keepalive: six characters, the first an `a`.
pub open spec fn is_keepalive(msg: Seq<char>) -> bool {
    msg.len() == 6 && msg[0] == 'a'
}

/// An air-only update: seven characters, the first a `d`.
pub open spec fn is_air_update(msg: Seq<char>) -> bool {
    msg.len() == 7 && msg[0] == 'd'
}

/// A full update: 39 characters, the first a `b`.
pub open spec fn is_full_update(msg: Seq<char>) -> bool {
    msg.len() == 39 && msg[0] == 'b'
}

/// A frame of a length that the protocol does not know.
pub open spec fn is_violation(msg: Seq<char>) -> bool {
    msg.len() != 6 && msg.len() != 7 && msg.len() != 39
}

/// The ground array after a text frame.
pub open spec fn ground_after(before: Seq<u8>, msg: Seq<char>) -> Seq<u8> {
    if is_full_update(msg) { ground_segment(msg) } else { before }
}

/// The air array after a text frame, under the given layout.
pub open spec fn air_after(before: Seq<u8>, layout: BrokenithmSpec, msg: Seq<char>) -> Seq<u8> {
    if is_air_update(msg) {
        air_segment(msg, 1)
    } else if is_full_update(msg) && layout != BrokenithmSpec::HandTracking {
        air_segment(msg, 33)
    } else {
        before
    }
}

/// Whether the outcome is the one that the protocol gives for a text frame.
pub open spec fn outcome_fits(outcome: Outcome, msg: Seq<char>) -> bool {
    match outcome {
        Outcome::Stop => is_violation(msg),
        Outcome::Reply(text) => is_keepalive(msg) && text@ == "alive"@,
        Outcome::Continue => !is_violation(msg) && !is_keepalive(msg),
    }
}

impl InputState {
    /// Overwrites the six air sensors from the characters at `start..start + 6`.
    fn write_air(&mut self, msg: &str, start: usize)
        requires
            start <= 33,
            start + 6 <= msg@.len(),
        ensures
            final(self).air@ == air_segment(msg@, start as int),
            final(self).ground@ == old(self).ground@,
    {
        let mut i: usize = 0;
        while i < 6
            invariant
                i <= 6,
                start <= 33,
                start + 6 <= msg@.len(),
                self.ground@ == old(self).ground@,
                forall|k: int| 0 <= k < i ==> self.air@[k] == air_level(msg@[start + k]),
            decreases 6 - i,
        {
            let level: u8 = if msg.get_char(start + i) == '1' { 1 } else { 0 };
            self.air[i] = level;
            i += 1;
        }
        assert(self.air@ =~= air_segment(msg@, start as int));
    }

    /// Overwrites the 32 ground cells from the characters at `1..33`.
    fn write_ground(&mut self, msg: &str)
        requires
            33 <= msg@.len(),
        ensures
            final(self).ground@ == ground_segment(msg@),
            final(self).air@ == old(self).air@,
    {
        let mut i: usize = 0;
        while i < 32
            invariant
                i <= 32,
                33 <= msg@.len(),
                self.air@ == old(self).air@,
                forall|k: int| 0 <= k < i ==> self.ground@[k] == ground_level(msg@[1 + k]),
            decreases 32 - i,
        {
            let level: u8 = if msg.get_char(1 + i) == '1' { 255 } else { 0 };
            self.ground[i] = level;
            i += 1;
        }
        assert(self.ground@ =~= ground_segment(msg@));
    }

    /// Handles one text frame. The frame's length tells its kind: six
    /// characters are a keepalive, seven an air-only update, 39 a full update;
    /// the first character must be the kind's tag, else the frame is skipped.
    /// A full update overwrites the ground cells and, unless the layout is
    /// hand tracking, the air sensors. Any other length ends the session and
    /// leaves the state as it is.
    pub fn apply_text(&mut self, layout: BrokenithmSpec, msg: &str) -> (outcome: Outcome)
        ensures
            final(self).ground@ == ground_after(old(self).ground@, msg@),
            final(self).air@ == air_after(old(self).air@, layout, msg@),
            outcome_fits(outcome, msg@),
    {
        let n: usize = msg.unicode_len();
        if n == 6 {
            if msg.get_char(0) == 'a' {
                return Outcome::Reply(String::from_str("alive"));
            }
            Outcome::Continue
        } else if n == 7 {
            if msg.get_char(0) == 'd' {
                self.write_air(msg, 1);
            }
            Outcome::Continue
        } else if n == 39 {
            if msg.get_char(0) == 'b' {
                self.write_ground(msg);
                if layout != BrokenithmSpec::HandTracking {
                    self.write_air(msg, 33);
                }
            }
            Outcome::Continue
        } else {
            Outcome::Stop
        }
    }

    /// Handles one inbound event of a session. A text frame is decoded as
    /// `apply_text` says. A close frame or a transport error releases every
    /// input and ends the session; the end of the stream ends it and leaves
    /// the state; any other frame is skipped.
    pub fn apply(&mut self, layout: BrokenithmSpec, event: &Inbound) -> (outcome: Outcome)
        ensures
            match *event {
                Inbound::Text(msg) => {
                    &&& final(self).ground@ == ground_after(old(self).ground@, msg@)
                    &&& final(self).air@ == air_after(old(self).air@, layout, msg@)
                    &&& outcome_fits(outcome, msg@)
                },
                Inbound::Close | Inbound::Failure => {
                    &&& final(self).ground@ == zeros(32)
                    &&& final(self).air@ == zeros(6)
                    &&& outcome == Outcome::Stop
                },
                Inbound::Other => *final(self) == *old(self) && outcome == Outcome::Continue,
                Inbound::End => *final(self) == *old(self) && outcome == Outcome::Stop,
            },
    {
        match event {
            Inbound::Text(msg) => self.apply_text(layout, msg.as_str()),
            Inbound::Close => {
                self.reset();
                Outcome::Stop
            },
            Inbound::Failure => {
                self.reset();
                Outcome::Stop
            },
            Inbound::Other => Outcome::Continue,
            Inbound::End => Outcome::Stop,
        }
    }

    /// The 32 characters that encode the ground cells: `1` for a fully
    /// pressed cell, `0` for any other.
    pub fn ground_chars(&self) -> (text: String)
        ensures
            text@ == ground_text(self.ground@),
    {
        let mut text = String::new();
        let mut i: usize = 0;
        while i < 32
            invariant
                i <= 32,
                text@.len() == i,
                forall|k: int| 0 <= k < i ==> text@[k] == ground_char(self.ground@[k]),
            decreases 32 - i,
        {
            proof {
                reveal_strlit("1");
                reveal_strlit("0");
            }
            if self.ground[i] == 255 {
                text.append("1");
            } else {
                text.append("0");
            }
            i += 1;
        }
        assert(text@ =~= ground_text(self.ground@));
        text
    }
}

/// Decoding a full update and encoding the ground cells again gives back the
/// ground characters of the frame, as long as each of them is `0` or `1`.
pub proof fn ground_round_trip(msg: Seq<char>)
    requires
        is_full_update(msg),
        forall|i: int| 1 <= i < 33 ==> msg[i] == '0' || msg[i] == '1',
    ensures
        ground_text(ground_after(zeros(32), msg)) == msg.subrange(1, 33),
        forall|i: int| 0 <= i < 32 ==> (msg[1 + i] == '1' <==> ground_segment(msg)[i] == 255u8),
        forall|i: int| 0 <= i < 32 ==> (msg[1 + i] == '0' <==> ground_segment(msg)[i] == 0u8),
{
    assert(ground_text(ground_segment(msg)) =~= msg.subrange(1, 33));
}

/// Encoding ground cells that are all 0 or 255 into a full update and
/// decoding it gives the same cells back, whatever the air characters are.
pub proof fn ground_round_trip_back(ground: Seq<u8>, air: Seq<char>)
    requires
        ground.len() == 32,
        air.len() == 6,
        forall|i: int| 0 <= i < 32 ==> ground[i] == 0u8 || ground[i] == 255u8,
    ensures
        ground_segment(seq!['b'] + ground_text(ground) + air) == ground,
{
    assert(ground_segment(seq!['b'] + ground_text(ground) + air) =~= ground);
}

/// An air-only update leaves the ground cells as they were, under every
/// layout, and overwrites all six air sensors.
pub proof fn air_update_keeps_ground(ground: Seq<u8>, air: Seq<u8>, layout: BrokenithmSpec, msg: Seq<char>)
    requires
        is_air_update(msg),
    ensures
        ground_after(ground, msg) == ground,
        air_after(air, layout, msg) == air_segment(msg, 1),
{
}

/// Under hand tracking a full update leaves the air sensors as they were;
/// under every other layout it overwrites them from its last six characters.
pub proof fn full_update_air_by_layout(air: Seq<u8>, layout: BrokenithmSpec, msg: Seq<char>)
    requires
        is_full_update(msg),
    ensures
        layout == BrokenithmSpec::HandTracking ==> air_after(air, layout, msg) == air,
        layout != BrokenithmSpec::HandTracking ==> air_after(air, layout, msg) == air_segment(msg, 33),
{
}

/// A text frame whose length is none of 6, 7 and 39 changes nothing, and the
/// only outcome that fits it is to stop.
pub proof fn violation_changes_nothing(
    ground: Seq<u8>,
    air: Seq<u8>,
    layout: BrokenithmSpec,
    msg: Seq<char>,
    outcome: Outcome,
)
    requires
        is_violation(msg),
        outcome_fits(outcome, msg),
    ensures
        ground_after(ground, msg) == ground,
        air_after(air, layout, msg) == air,
        outcome == Outcome::Stop,
{
}

} // verus!
