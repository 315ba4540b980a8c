//! Per-frame input state: rising-edge detection for buttons and keys, the
//! last-known pointer position, and the snapshot of held keys that the bloom
//! controller polls each frame.

use vstd::prelude::*;

verus! {

use crate::geometry::ScreenPoint;

/// Detects the rising edge of a button or key across frames: the edge fires
/// only on a frame where the input is down and was up on the previous frame.
#[derive(Clone, Copy, Debug, PartialEq, Eq, Structural)]
pub struct EdgeDetector {
    /// Whether the input was down on the most recently observed frame.
    pub was_down: bool,
}

impl EdgeDetector {
    /// A detector that has never seen the input down.
    pub fn new() -> (r: EdgeDetector)
        ensures
            !r.was_down,
    {
        EdgeDetector { was_down: false }
    }

    /// Observes one frame's held state and reports whether this frame is a
    /// rising edge.  Holding the input down across several frames fires the
    /// edge only on the first of them; it cannot fire again until a frame
    /// with the input up has been observed.
    pub fn step(&mut self, down: bool) -> (rising: bool)
        ensures
            rising == (down && !old(self).was_down),
            final(self).was_down == down,
    {
        let rising = down && !self.was_down;
        self.was_down = down;
        rising
    }
}

/// The last known pointer position, in screen coordinates; `None` until the
/// first movement event arrives.
#[derive(Clone, Copy, Debug, PartialEq, Eq, Structural)]
pub struct PointerState {
    pub last_seen: Option<ScreenPoint>,
}

impl PointerState {
    /// The state at process start: no position known yet.
    pub fn new() -> (r: PointerState)
        ensures
            r.last_seen is None,
    {
        PointerState { last_seen: None }
    }

    /// Consumes the pointer-movement events of one frame, in arrival order,
    /// and records the position of the last of them; a frame with no events
    /// leaves the state unchanged.
    pub fn note_movements(&mut self, events: &Vec<ScreenPoint>)
        ensures
            events@.len() > 0 ==> final(self).last_seen == Some(events@[events@.len() - 1]),
            events@.len() == 0 ==> final(self).last_seen == old(self).last_seen,
    {
        let mut i: usize = 0;
        while i < events.len()
            invariant
                i <= events@.len(),
                i > 0 ==> self.last_seen == Some(events@[i - 1]),
                i == 0 ==> self.last_seen == old(self).last_seen,
            decreases events@.len() - i,
        {
            self.last_seen = Some(events[i]);
            i = i + 1;
        }
    }
}

/// The keys the bloom controller polls, as held (not edge-triggered) state
/// for one frame, plus the held state of the toggle key, whose rising edge
/// the controller detects itself.
#[derive(Clone, Copy, Debug, PartialEq, Eq, Structural)]
pub struct KeysHeld {
    pub intensity_up: bool,
    pub intensity_down: bool,
    pub boost_up: bool,
    pub boost_down: bool,
    pub curvature_up: bool,
    pub curvature_down: bool,
    pub high_pass_up: bool,
    pub high_pass_down: bool,
    pub mode_additive: bool,
    pub mode_energy: bool,
    pub threshold_up: bool,
    pub threshold_down: bool,
    pub softness_up: bool,
    pub softness_down: bool,
    pub toggle: bool,
}

impl KeysHeld {
    /// A frame on which no polled key is held.
    pub fn none() -> (r: KeysHeld)
        ensures
            r == (KeysHeld {
                intensity_up: false,
                intensity_down: false,
                boost_up: false,
                boost_down: false,
                curvature_up: false,
                curvature_down: false,
                high_pass_up: false,
                high_pass_down: false,
                mode_additive: false,
                mode_energy: false,
                threshold_up: false,
                threshold_down: false,
                softness_up: false,
                softness_down: false,
                toggle: false,
            }),
    {
        KeysHeld {
            intensity_up: false,
            intensity_down: false,
            boost_up: false,
            boost_down: false,
            curvature_up: false,
            curvature_down: false,
            high_pass_up: false,
            high_pass_down: false,
            mode_additive: false,
            mode_energy: false,
            threshold_up: false,
            threshold_down: false,
            softness_up: false,
            softness_down: false,
            toggle: false,
        }
    }
}

/// Everything the bloom controller consumes on one frame: the held-key
/// snapshot and the elapsed time since the previous frame, in ticks of ten
/// microseconds.
#[derive(Clone, Copy, Debug, PartialEq, Eq, Structural)]
pub struct FrameInput {
    pub keys: KeysHeld,
    pub dt_ticks: u32,
}

} // verus!
