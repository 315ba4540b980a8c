//! The bloom parameter controller: a two-state machine (bloom enabled with a
//! set of parameters, or disabled) driven once per frame by the held-key
//! snapshot and the elapsed frame time.
//!
//! Parameters are held in micro-units, `1_000_000` per 1.0.  Frame time is
//! held in ticks of ten microseconds, so a key held for `dt` seconds moves a
//! slow-rate parameter by exactly `dt/10` (one micro-unit per tick) and the
//! prefilter threshold by `dt` (ten micro-units per tick).

use vstd::prelude::*;

verus! {

use crate::input::EdgeDetector;
use crate::input::FrameInput;
use crate::input::KeysHeld;

/// Micro-units per 1.0 of a bloom parameter.
pub const UNIT: u32 = 1_000_000;

/// How the bloom layer is combined with the rendered image.
#[derive(Clone, Copy, Debug, PartialEq, Eq, Structural)]
pub enum CompositeMode {
    EnergyConserving,
    Additive,
}

/// The bloom effect's parameters, in micro-units.  All fields but
/// `prefilter_threshold` are clamped to `[0, 1_000_000]`; the threshold is
/// only bounded below by zero.
#[derive(Clone, Copy, Debug, PartialEq, Eq, Structural)]
pub struct BloomParams {
    pub intensity: u32,
    pub low_frequency_boost: u32,
    pub low_frequency_boost_curvature: u32,
    pub high_pass_frequency: u32,
    pub composite_mode: CompositeMode,
    pub prefilter_threshold: u64,
    pub prefilter_threshold_softness: u32,
}

impl BloomParams {
    /// Every clamped field is within its documented bound of `[0, 1]`
    /// (the lower bound holds by the unsigned type).
    pub open spec fn wf(self) -> bool {
        &&& self.intensity <= 1_000_000
        &&& self.low_frequency_boost <= 1_000_000
        &&& self.low_frequency_boost_curvature <= 1_000_000
        &&& self.high_pass_frequency <= 1_000_000
        &&& self.prefilter_threshold_softness <= 1_000_000
    }

    /// The fixed configuration the controller enables bloom with: intensity
    /// 0.15, low-frequency boost 0.7 with curvature 0.95, high-pass frequency
    /// 1.0, energy-conserving compositing, and a zero prefilter.
    pub open spec fn default_spec() -> BloomParams {
        BloomParams {
            intensity: 150_000,
            low_frequency_boost: 700_000,
            low_frequency_boost_curvature: 950_000,
            high_pass_frequency: 1_000_000,
            composite_mode: CompositeMode::EnergyConserving,
            prefilter_threshold: 0,
            prefilter_threshold_softness: 0,
        }
    }

    /// The scene is built with this configuration: the default with the
    /// intensity raised to 0.35.
    pub open spec fn startup_spec() -> BloomParams {
        BloomParams { intensity: 350_000, ..BloomParams::default_spec() }
    }

    /// The configuration the scene starts with.
    pub fn startup() -> (r: BloomParams)
        ensures
            r == BloomParams::startup_spec(),
            r.wf(),
    {
        BloomParams { intensity: 350_000, ..Self::default() }
    }
}

impl Default for BloomParams {
    /// The configuration bloom is re-enabled with after a toggle.
    fn default() -> (r: BloomParams)
        ensures
            r == BloomParams::default_spec(),
            r.wf(),
    {
        BloomParams {
            intensity: 150_000,
            low_frequency_boost: 700_000,
            low_frequency_boost_curvature: 950_000,
            high_pass_frequency: 1_000_000,
            composite_mode: CompositeMode::EnergyConserving,
            prefilter_threshold: 0,
            prefilter_threshold_softness: 0,
        }
    }
}

/// `x` clamped to `[0, 1_000_000]` micro-units.
pub open spec fn clamp_unit(x: int) -> int {
    if x < 0 {
        0
    } else if x > 1_000_000 {
        1_000_000
    } else {
        x
    }
}

/// One frame's change to a clamped parameter: `delta` is added while the
/// increase key is held and subtracted while the decrease key is held — both
/// held nets to no change — and the result is clamped to `[0, 1_000_000]`.
pub open spec fn adjusted(value: int, up: bool, down: bool, delta: int) -> int {
    clamp_unit(value + (if up { delta } else { 0 }) - (if down { delta } else { 0 }))
}

/// `x` saturated to the `u64` range.
pub open spec fn sat_u64(x: int) -> int {
    if x < 0 {
        0
    } else if x > u64::MAX {
        u64::MAX as int
    } else {
        x
    }
}

/// One frame's change to the prefilter threshold: as [`adjusted`], but with
/// no upper clamp — the value is only kept non-negative (and saturates at
/// the top of `u64`, far beyond any value reachable in practice).
pub open spec fn adjusted_threshold(value: int, up: bool, down: bool, delta: int) -> int {
    sat_u64(value + (if up { delta } else { 0 }) - (if down { delta } else { 0 }))
}

/// One frame's change to the composite mode: set to `Additive` while its key
/// is held, then to `EnergyConserving` while that key is held — so when both
/// keys are held in one frame, `EnergyConserving` wins; with neither held
/// the mode keeps its value.
pub open spec fn adjusted_mode(m: CompositeMode, additive_held: bool, energy_held: bool) -> CompositeMode {
    if energy_held {
        CompositeMode::EnergyConserving
    } else if additive_held {
        CompositeMode::Additive
    } else {
        m
    }
}

/// Applies one frame's adjustment to a clamped parameter.
pub fn adjust_clamped(value: u32, up: bool, down: bool, delta: u32) -> (r: u32)
    requires
        value <= 1_000_000,
    ensures
        r == adjusted(value as int, up, down, delta as int),
        r <= 1_000_000,
{
    let mut net: i64 = value as i64;
    if up {
        net = net + delta as i64;
    }
    if down {
        net = net - delta as i64;
    }
    if net < 0 {
        0
    } else if net > 1_000_000 {
        1_000_000
    } else {
        net as u32
    }
}

/// Applies one frame's adjustment to the prefilter threshold.
pub fn adjust_threshold(value: u64, up: bool, down: bool, delta: u64) -> (r: u64)
    ensures
        r == adjusted_threshold(value as int, up, down, delta as int),
{
    if up && !down {
        if value <= u64::MAX - delta {
            value + delta
        } else {
            u64::MAX
        }
    } else if down && !up {
        if value >= delta {
            value - delta
        } else {
            0
        }
    } else {
        value
    }
}

/// Applies one frame's assignment to the composite mode, checking the
/// `Additive` key before the `EnergyConserving` key.
pub fn adjust_mode(m: CompositeMode, additive_held: bool, energy_held: bool) -> (r: CompositeMode)
    ensures
        r == adjusted_mode(m, additive_held, energy_held),
{
    let mut r = m;
    if additive_held {
        r = CompositeMode::Additive;
    }
    if energy_held {
        r = CompositeMode::EnergyConserving;
    }
    r
}

/// The parameters after one enabled frame: each pair of held keys moves its
/// parameter by one micro-unit per tick (`dt/10` per second of key hold),
/// the prefilter threshold by ten micro-units per tick (`dt` per second),
/// and the composite-mode keys assign their mode with `EnergyConserving`
/// winning a simultaneous hold.
pub open spec fn stepped(p: BloomParams, keys: KeysHeld, dt_ticks: u32) -> BloomParams {
    BloomParams {
        intensity: adjusted(p.intensity as int, keys.intensity_up, keys.intensity_down, dt_ticks as int) as u32,
        low_frequency_boost: adjusted(p.low_frequency_boost as int, keys.boost_up, keys.boost_down, dt_ticks as int) as u32,
        low_frequency_boost_curvature: adjusted(p.low_frequency_boost_curvature as int, keys.curvature_up, keys.curvature_down, dt_ticks as int) as u32,
        high_pass_frequency: adjusted(p.high_pass_frequency as int, keys.high_pass_up, keys.high_pass_down, dt_ticks as int) as u32,
        composite_mode: adjusted_mode(p.composite_mode, keys.mode_additive, keys.mode_energy),
        prefilter_threshold: adjusted_threshold(p.prefilter_threshold as int, keys.threshold_up, keys.threshold_down, 10 * dt_ticks as int) as u64,
        prefilter_threshold_softness: adjusted(p.prefilter_threshold_softness as int, keys.softness_up, keys.softness_down, dt_ticks as int) as u32,
    }
}

impl BloomParams {
    /// Applies one frame's held keys to every parameter, as [`stepped`]
    /// says.
    pub fn adjust(&mut self, keys: &KeysHeld, dt_ticks: u32)
        requires
            old(self).wf(),
        ensures
            *final(self) == stepped(*old(self), *keys, dt_ticks),
            final(self).wf(),
    {
        self.intensity = adjust_clamped(self.intensity, keys.intensity_up, keys.intensity_down, dt_ticks);
        self.low_frequency_boost = adjust_clamped(self.low_frequency_boost, keys.boost_up, keys.boost_down, dt_ticks);
        self.low_frequency_boost_curvature = adjust_clamped(self.low_frequency_boost_curvature, keys.curvature_up, keys.curvature_down, dt_ticks);
        self.high_pass_frequency = adjust_clamped(self.high_pass_frequency, keys.high_pass_up, keys.high_pass_down, dt_ticks);
        self.composite_mode = adjust_mode(self.composite_mode, keys.mode_additive, keys.mode_energy);
        self.prefilter_threshold = adjust_threshold(self.prefilter_threshold, keys.threshold_up, keys.threshold_down, 10 * (dt_ticks as u64));
        self.prefilter_threshold_softness = adjust_clamped(self.prefilter_threshold_softness, keys.softness_up, keys.softness_down, dt_ticks);
    }
}

/// Whether bloom is attached to the camera, and with which parameters.
#[derive(Clone, Copy, Debug, PartialEq, Eq, Structural)]
pub enum BloomState {
    Disabled,
    Enabled(BloomParams),
}

/// What the status display shows for one frame: either the fixed "off"
/// notice or the seven parameter values at the start of the frame.
#[derive(Clone, Copy, Debug, PartialEq, Eq, Structural)]
pub enum StatusReport {
    Off,
    On(BloomParams),
}

/// The bloom controller: the enabled/disabled state and the edge detector
/// for the toggle key.
#[derive(Clone, Copy, Debug, PartialEq, Eq, Structural)]
pub struct BloomControl {
    pub state: BloomState,
    pub toggle_edge: EdgeDetector,
}

/// Any attached parameters are within their bounds.
pub open spec fn control_wf(c: BloomControl) -> bool {
    c.state matches BloomState::Enabled(p) ==> p.wf()
}

/// The controller after one frame.  A rising edge of the toggle key flips
/// the state — detaching the parameters, or attaching the default ones — and
/// on an enabled frame without that edge every parameter is adjusted as
/// [`stepped`] says.  No parameter is polled on a disabled frame.
pub open spec fn control_stepped(c: BloomControl, input: FrameInput) -> BloomControl {
    let rising = input.keys.toggle && !c.toggle_edge.was_down;
    let state = match c.state {
        BloomState::Disabled => if rising {
            BloomState::Enabled(BloomParams::default_spec())
        } else {
            BloomState::Disabled
        },
        BloomState::Enabled(p) => if rising {
            BloomState::Disabled
        } else {
            BloomState::Enabled(stepped(p, input.keys, input.dt_ticks))
        },
    };
    BloomControl { state, toggle_edge: EdgeDetector { was_down: input.keys.toggle } }
}

/// The status shown for a frame that starts in state `c`: the display
/// rebuilds its text at the start of the frame, so it carries the parameter
/// values before that frame's adjustments.
pub open spec fn status_of(c: BloomControl) -> StatusReport {
    match c.state {
        BloomState::Disabled => StatusReport::Off,
        BloomState::Enabled(p) => StatusReport::On(p),
    }
}

impl BloomControl {
    /// The controller as the scene starts: bloom enabled with the startup
    /// parameters, no key yet observed.
    pub fn new() -> (r: BloomControl)
        ensures
            r.state == BloomState::Enabled(BloomParams::startup_spec()),
            !r.toggle_edge.was_down,
            control_wf(r),
    {
        BloomControl { state: BloomState::Enabled(BloomParams::startup()), toggle_edge: EdgeDetector::new() }
    }

    /// Runs one frame of the controller and returns what the status display
    /// shows for it.
    pub fn frame(&mut self, input: &FrameInput) -> (status: StatusReport)
        requires
            control_wf(*old(self)),
        ensures
            *final(self) == control_stepped(*old(self), *input),
            status == status_of(*old(self)),
            control_wf(*final(self)),
    {
        let status = match &self.state {
            BloomState::Disabled => StatusReport::Off,
            BloomState::Enabled(p) => StatusReport::On(*p),
        };
        let rising = self.toggle_edge.step(input.keys.toggle);
        if rising {
            match &self.state {
                BloomState::Disabled => {
                    self.state = BloomState::Enabled(BloomParams::default());
                },
                BloomState::Enabled(_) => {
                    self.state = BloomState::Disabled;
                },
            }
        } else {
            match self.state {
                BloomState::Disabled => {},
                BloomState::Enabled(mut p) => {
                    p.adjust(&input.keys, input.dt_ticks);
                    self.state = BloomState::Enabled(p);
                },
            }
        }
        status
    }
}

/// The controller after a whole sequence of frames, first frame first.
pub open spec fn control_run(c: BloomControl, frames: Seq<FrameInput>) -> BloomControl
    decreases frames.len(),
{
    if frames.len() == 0 {
        c
    } else {
        control_run(control_stepped(c, frames.first()), frames.drop_first())
    }
}

/// After any sequence of frames — any keys held, any frame times — every
/// clamped parameter of an attached configuration remains within its
/// documented bound.
pub proof fn lemma_run_keeps_bounds(c: BloomControl, frames: Seq<FrameInput>)
    requires
        control_wf(c),
    ensures
        control_wf(control_run(c, frames)),
    decreases frames.len(),
{
    if frames.len() > 0 {
        lemma_run_keeps_bounds(control_stepped(c, frames.first()), frames.drop_first());
    }
}

/// Once the controller is disabled and the toggle key has been seen down, a
/// run of frames that all keep the key held never re-enables it: the edge
/// cannot fire again before a release.
pub proof fn lemma_held_toggle_keeps_disabled(c: BloomControl, frames: Seq<FrameInput>)
    requires
        c.state is Disabled,
        c.toggle_edge.was_down,
        forall|i: int| 0 <= i < frames.len() ==> #[trigger] frames[i].keys.toggle,
    ensures
        control_run(c, frames).state is Disabled,
    decreases frames.len(),
{
    if frames.len() > 0 {
        let c2 = control_stepped(c, frames.first());
        assert(forall|i: int| 0 <= i < frames.drop_first().len() ==> #[trigger] frames.drop_first()[i].keys.toggle);
        lemma_held_toggle_keeps_disabled(c2, frames.drop_first());
    }
}

/// The mirror image of [`lemma_held_toggle_keeps_disabled`]: once enabled
/// with the key already seen down, a run of frames that all keep the key
/// held leaves bloom enabled.
pub proof fn lemma_held_toggle_keeps_enabled(c: BloomControl, frames: Seq<FrameInput>)
    requires
        c.state is Enabled,
        c.toggle_edge.was_down,
        forall|i: int| 0 <= i < frames.len() ==> #[trigger] frames[i].keys.toggle,
    ensures
        control_run(c, frames).state is Enabled,
    decreases frames.len(),
{
    if frames.len() > 0 {
        let c2 = control_stepped(c, frames.first());
        assert(forall|i: int| 0 <= i < frames.drop_first().len() ==> #[trigger] frames.drop_first()[i].keys.toggle);
        lemma_held_toggle_keeps_enabled(c2, frames.drop_first());
    }
}

/// One press of the toggle key while enabled disables bloom exactly once:
/// the first frame of the hold carries the rising edge and disables it, and
/// however many further frames keep the key held, it stays disabled until
/// the key is released.
pub proof fn lemma_toggle_fires_once(c: BloomControl, frames: Seq<FrameInput>)
    requires
        c.state is Enabled,
        !c.toggle_edge.was_down,
        frames.len() > 0,
        forall|i: int| 0 <= i < frames.len() ==> #[trigger] frames[i].keys.toggle,
    ensures
        control_run(c, frames).state is Disabled,
{
    let c2 = control_stepped(c, frames.first());
    assert(forall|i: int| 0 <= i < frames.drop_first().len() ==> #[trigger] frames.drop_first()[i].keys.toggle);
    lemma_held_toggle_keeps_disabled(c2, frames.drop_first());
}

} // verus!
