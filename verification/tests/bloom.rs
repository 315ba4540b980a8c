use bloom_board::bloom::{
    adjust_clamped, adjust_mode, adjust_threshold, BloomControl, BloomParams, BloomState,
    CompositeMode, StatusReport, UNIT,
};
use bloom_board::input::{FrameInput, KeysHeld};

// One second of frame time in ten-microsecond ticks.
const ONE_SECOND: u32 = 100_000;

fn enabled_params(control: &BloomControl) -> BloomParams {
    match control.state {
        BloomState::Enabled(p) => p,
        BloomState::Disabled => panic!("bloom is disabled"),
    }
}

#[test]
fn default_and_startup_values() {
    let d = BloomParams::default();
    assert_eq!(d.intensity, 150_000);
    assert_eq!(d.low_frequency_boost, 700_000);
    assert_eq!(d.low_frequency_boost_curvature, 950_000);
    assert_eq!(d.high_pass_frequency, UNIT);
    assert_eq!(d.composite_mode, CompositeMode::EnergyConserving);
    assert_eq!(d.prefilter_threshold, 0);
    assert_eq!(d.prefilter_threshold_softness, 0);

    let s = BloomParams::startup();
    assert_eq!(s.intensity, 350_000);
    assert_eq!(s.low_frequency_boost, 700_000);
}

// Holding the decrease key for frames summing to ten seconds drives the
// startup intensity 0.35 to exactly 0.0, clamped, never below.
#[test]
fn intensity_decreases_to_floor() {
    let mut control = BloomControl::new();
    let keys = KeysHeld {
        intensity_down: true,
        ..KeysHeld::none()
    };
    let input = FrameInput { keys, dt_ticks: ONE_SECOND };

    // After one second: 0.35 - 0.1 = 0.25.
    control.frame(&input);
    assert_eq!(enabled_params(&control).intensity, 250_000);

    // Nine more seconds of holding: the floor is reached exactly (after
    // 3.5 seconds in all) and never crossed.
    for _ in 0..9 {
        control.frame(&input);
    }
    let p = enabled_params(&control);
    assert_eq!(p.intensity, 0);
    // The other parameters were not touched.
    assert_eq!(p.low_frequency_boost, 700_000);
    assert_eq!(p.high_pass_frequency, UNIT);
}

// An increase key drives a clamped parameter to exactly 1.0 and no further.
#[test]
fn intensity_increases_to_ceiling() {
    let mut control = BloomControl::new();
    let keys = KeysHeld {
        intensity_up: true,
        ..KeysHeld::none()
    };
    let input = FrameInput { keys, dt_ticks: ONE_SECOND };
    for _ in 0..20 {
        control.frame(&input);
    }
    assert_eq!(enabled_params(&control).intensity, UNIT);
}

// Holding both keys of one parameter in the same frame nets to no change.
#[test]
fn opposed_keys_net_zero() {
    assert_eq!(adjust_clamped(350_000, true, true, ONE_SECOND), 350_000);
    assert_eq!(adjust_threshold(400_000, true, true, 10 * ONE_SECOND as u64), 400_000);
}

// The prefilter threshold moves at the fast rate (dt, not dt/10), clamps
// only below, and may rise above 1.0.
#[test]
fn threshold_is_only_bounded_below() {
    let mut control = BloomControl::new();
    let up = FrameInput {
        keys: KeysHeld { threshold_up: true, ..KeysHeld::none() },
        dt_ticks: ONE_SECOND,
    };
    for _ in 0..3 {
        control.frame(&up);
    }
    // Three seconds at rate 1.0 per second: threshold 3.0.
    assert_eq!(enabled_params(&control).prefilter_threshold, 3_000_000);

    let down = FrameInput {
        keys: KeysHeld { threshold_down: true, ..KeysHeld::none() },
        dt_ticks: ONE_SECOND,
    };
    for _ in 0..5 {
        control.frame(&down);
    }
    // Five seconds of decrease stop exactly at the floor.
    assert_eq!(enabled_params(&control).prefilter_threshold, 0);
}

// Holding both composite-mode keys in one frame deterministically yields
// EnergyConserving: the Additive key is checked first, so the
// EnergyConserving assignment wins.
#[test]
fn simultaneous_mode_keys_energy_wins() {
    assert_eq!(
        adjust_mode(CompositeMode::Additive, true, true),
        CompositeMode::EnergyConserving
    );
    assert_eq!(
        adjust_mode(CompositeMode::EnergyConserving, true, false),
        CompositeMode::Additive
    );
    assert_eq!(
        adjust_mode(CompositeMode::Additive, false, false),
        CompositeMode::Additive
    );

    let mut control = BloomControl::new();
    let both = FrameInput {
        keys: KeysHeld { mode_additive: true, mode_energy: true, ..KeysHeld::none() },
        dt_ticks: ONE_SECOND,
    };
    control.frame(&both);
    assert_eq!(
        enabled_params(&control).composite_mode,
        CompositeMode::EnergyConserving
    );
}

// One press of the toggle key disables bloom exactly once, however long the
// key stays held; a release and a new press enable it again with the
// default parameters.
#[test]
fn toggle_fires_once_per_press() {
    let mut control = BloomControl::new();
    let held = FrameInput {
        keys: KeysHeld { toggle: true, ..KeysHeld::none() },
        dt_ticks: ONE_SECOND,
    };
    let released = FrameInput { keys: KeysHeld::none(), dt_ticks: ONE_SECOND };

    // The press frame still shows the parameters it started with.
    let status = control.frame(&held);
    assert_eq!(status, StatusReport::On(BloomParams::startup()));
    assert_eq!(control.state, BloomState::Disabled);

    // Holding the key over further frames does not re-enable.
    for _ in 0..5 {
        let status = control.frame(&held);
        assert_eq!(status, StatusReport::Off);
        assert_eq!(control.state, BloomState::Disabled);
    }

    // Release, then press again: enabled with the default configuration.
    control.frame(&released);
    assert_eq!(control.state, BloomState::Disabled);
    control.frame(&held);
    assert_eq!(control.state, BloomState::Enabled(BloomParams::default()));
}

// While disabled no parameter is polled: adjustment keys held on disabled
// frames leave the configuration bloom is re-enabled with untouched.
#[test]
fn disabled_frames_poll_nothing() {
    let mut control = BloomControl::new();
    let toggle = FrameInput {
        keys: KeysHeld { toggle: true, ..KeysHeld::none() },
        dt_ticks: ONE_SECOND,
    };
    control.frame(&toggle);
    assert_eq!(control.state, BloomState::Disabled);

    let adjusting = FrameInput {
        keys: KeysHeld { intensity_up: true, threshold_up: true, ..KeysHeld::none() },
        dt_ticks: ONE_SECOND,
    };
    for _ in 0..4 {
        assert_eq!(control.frame(&adjusting), StatusReport::Off);
    }

    control.frame(&toggle);
    assert_eq!(control.state, BloomState::Enabled(BloomParams::default()));
}

// The status of a frame shows the values at its start, before that frame's
// adjustments are applied.
#[test]
fn status_shows_frame_start_values() {
    let mut control = BloomControl::new();
    let input = FrameInput {
        keys: KeysHeld { intensity_down: true, ..KeysHeld::none() },
        dt_ticks: ONE_SECOND,
    };
    let status = control.frame(&input);
    assert_eq!(status, StatusReport::On(BloomParams::startup()));
    assert_eq!(enabled_params(&control).intensity, 250_000);
}

// Frame-rate independence: many small frames move a parameter exactly as
// far as one large frame of the same total time.
#[test]
fn adjustment_is_frame_rate_independent() {
    let mut fine = BloomControl::new();
    let mut coarse = BloomControl::new();
    let keys = KeysHeld { intensity_down: true, ..KeysHeld::none() };
    for _ in 0..100 {
        fine.frame(&FrameInput { keys, dt_ticks: ONE_SECOND / 100 });
    }
    coarse.frame(&FrameInput { keys, dt_ticks: ONE_SECOND });
    assert_eq!(enabled_params(&fine), enabled_params(&coarse));
}
