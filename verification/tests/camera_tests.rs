use planet_viewer::camera::{
    ButtonStates, CameraTransform, FxVec2, MouseButton, PanOrbitAction, PanOrbitSettings,
    PanOrbitState, ScrollEvent, ScrollUnit, TickInput, accumulate_motion, accumulate_scroll,
    derive_transform, pan_orbit_tick, reset_camera_now, reset_camera_on_key, wrap_yaw,
};
use planet_viewer::fx::{FX_ONE, FX_PI};
use planet_viewer::mesh::FxVec3;
use planet_viewer::trig::{cos_fx, exp_fx, sin_fx};

fn to_f64(v: i64) -> f64 {
    v as f64 / FX_ONE as f64
}

fn no_buttons() -> ButtonStates {
    ButtonStates { left: false, right: false, middle: false, back: false, forward: false }
}

fn quiet_input() -> TickInput {
    TickInput {
        motion: FxVec2 { x: 0, y: 0 },
        scroll_lines: FxVec2 { x: 0, y: 0 },
        scroll_pixels: FxVec2 { x: 0, y: 0 },
        pressed: no_buttons(),
        just_pressed: no_buttons(),
        ui_wants_pointer: false,
        ui_wants_keyboard: false,
    }
}

fn unit_orbit_settings() -> PanOrbitSettings {
    PanOrbitSettings {
        pan_sensitivity: 0,
        orbit_sensitivity: FX_ONE,
        zoom_sensitivity: 0,
        pan_button: None,
        orbit_button: Some(MouseButton::Right),
        zoom_button: None,
        scroll_action: None,
        scroll_line_sensitivity: FX_ONE,
        scroll_pixel_sensitivity: FX_ONE,
    }
}

#[test]
fn default_pan_orbit_settings_values() {
    let s = PanOrbitSettings::default();
    assert_eq!(s.pan_button, Some(MouseButton::Middle));
    assert_eq!(s.orbit_button, Some(MouseButton::Right));
    assert_eq!(s.zoom_button, None);
    assert_eq!(s.scroll_action, Some(PanOrbitAction::Zoom));
    assert!((to_f64(s.pan_sensitivity) - 0.001).abs() < 1e-5);
    assert!((to_f64(s.orbit_sensitivity) - 0.1f64.to_radians()).abs() < 1e-5);
    assert!((to_f64(s.zoom_sensitivity) - 0.01).abs() < 1e-5);
    assert_eq!(s.scroll_line_sensitivity, 16 * FX_ONE);
    assert_eq!(s.scroll_pixel_sensitivity, FX_ONE);
}

#[test]
fn default_state_values() {
    let s = PanOrbitState::default();
    assert_eq!(s.radius, FX_ONE);
    let p = PanOrbitState::default_position();
    assert_eq!(p.radius, 6 * FX_ONE);
    assert_eq!(p.yaw, 0);
    assert_eq!(p.pitch, 0);
    assert!(!p.upside_down);
    assert_eq!(p.center, FxVec3 { x: 0, y: 0, z: 0 });
}

#[test]
fn accumulate_motion_sums_and_inverts_y() {
    let events = vec![FxVec2 { x: 10, y: 20 }, FxVec2 { x: -3, y: 5 }];
    let m = accumulate_motion(&events);
    assert_eq!(m, FxVec2 { x: 7, y: -25 });
    let empty: Vec<FxVec2> = Vec::new();
    assert_eq!(accumulate_motion(&empty), FxVec2 { x: 0, y: 0 });
}

#[test]
fn accumulate_scroll_splits_units_and_inverts_y() {
    let events = vec![
        ScrollEvent { unit: ScrollUnit::Line, delta: FxVec2 { x: 1, y: 2 } },
        ScrollEvent { unit: ScrollUnit::Pixel, delta: FxVec2 { x: 3, y: 4 } },
        ScrollEvent { unit: ScrollUnit::Line, delta: FxVec2 { x: 5, y: -6 } },
    ];
    let (lines, pixels) = accumulate_scroll(&events);
    assert_eq!(lines, FxVec2 { x: 6, y: 4 });
    assert_eq!(pixels, FxVec2 { x: 3, y: -4 });
}

#[test]
fn wrap_yaw_example() {
    // yaw 3.0 plus 0.5 wraps to about 3.5 - 2*pi.
    let w = wrap_yaw(3 * FX_ONE + FX_ONE / 2);
    assert_eq!(w, 3 * FX_ONE + FX_ONE / 2 - 2 * FX_PI);
    let expected = 3.5 - 2.0 * std::f64::consts::PI;
    assert!((to_f64(w) - expected).abs() < 1e-4);
}

#[test]
fn yaw_wrap_through_tick() {
    let settings = unit_orbit_settings();
    let mut state = PanOrbitState::default_position();
    state.yaw = 3 * FX_ONE;
    let mut transform = derive_transform(&state);
    let mut input = quiet_input();
    input.pressed.right = true;
    input.motion = FxVec2 { x: -FX_ONE / 2, y: 0 };
    let changed = pan_orbit_tick(&settings, &mut state, &mut transform, &input);
    assert!(changed);
    assert_eq!(state.yaw, 3 * FX_ONE + FX_ONE / 2 - 2 * FX_PI);
    let expected = 3.5 - 2.0 * std::f64::consts::PI;
    assert!((to_f64(state.yaw) - expected).abs() < 1e-4);
}

#[test]
fn pole_flip_two_ticks() {
    let settings = unit_orbit_settings();
    let mut state = PanOrbitState::default_position();
    let mut transform = derive_transform(&state);

    // First press: pitch 0, so not upside down; drive pitch to 2.0, past
    // the pole.
    let mut input = quiet_input();
    input.pressed.right = true;
    input.just_pressed.right = true;
    input.motion = FxVec2 { x: 0, y: -2 * FX_ONE };
    assert!(pan_orbit_tick(&settings, &mut state, &mut transform, &input));
    assert!(!state.upside_down);
    assert_eq!(state.pitch, 2 * FX_ONE);

    // Second press: pitch is beyond pi/2, so the flag flips on, and the
    // horizontal orbit input is negated.
    let mut input2 = quiet_input();
    input2.pressed.right = true;
    input2.just_pressed.right = true;
    input2.motion = FxVec2 { x: -FX_ONE / 2, y: 0 };
    assert!(pan_orbit_tick(&settings, &mut state, &mut transform, &input2));
    assert!(state.upside_down);
    assert_eq!(state.yaw, -FX_ONE / 2);
    assert_eq!(state.pitch, 2 * FX_ONE);
}

#[test]
fn continued_drag_without_press_keeps_flag() {
    let settings = unit_orbit_settings();
    let mut state = PanOrbitState::default_position();
    state.pitch = 2 * FX_ONE;
    let mut transform = derive_transform(&state);
    // Button held (not just pressed): the flag keeps its old value even
    // though the pitch is past the pole.
    let mut input = quiet_input();
    input.pressed.right = true;
    input.motion = FxVec2 { x: -FX_ONE / 2, y: 0 };
    assert!(pan_orbit_tick(&settings, &mut state, &mut transform, &input));
    assert!(!state.upside_down);
    assert_eq!(state.yaw, FX_ONE / 2);
}

#[test]
fn zoom_scenario() {
    // Radius 6.0, zoom delta 1.0: the radius becomes 6/e.
    let settings = PanOrbitSettings {
        pan_sensitivity: 0,
        orbit_sensitivity: 0,
        zoom_sensitivity: FX_ONE,
        pan_button: None,
        orbit_button: None,
        zoom_button: None,
        scroll_action: Some(PanOrbitAction::Zoom),
        scroll_line_sensitivity: FX_ONE,
        scroll_pixel_sensitivity: 0,
    };
    let mut state = PanOrbitState::default_position();
    assert_eq!(state.radius, 6 * FX_ONE);
    let mut transform = derive_transform(&state);
    let mut input = quiet_input();
    // One scroll-up line: after the accumulation's sign inversion the
    // stored line delta is -1.0, which scales to a zoom delta of +1.0.
    input.scroll_lines = FxVec2 { x: 0, y: -FX_ONE };
    let changed = pan_orbit_tick(&settings, &mut state, &mut transform, &input);
    assert!(changed);
    let expected = 6.0 * (-1.0f64).exp();
    assert!((to_f64(state.radius) - expected).abs() < 5e-3);
}

#[test]
fn zoom_clamps_at_minimum_radius() {
    let settings = PanOrbitSettings {
        pan_sensitivity: 0,
        orbit_sensitivity: 0,
        zoom_sensitivity: FX_ONE,
        pan_button: None,
        orbit_button: None,
        zoom_button: None,
        scroll_action: Some(PanOrbitAction::Zoom),
        scroll_line_sensitivity: FX_ONE,
        scroll_pixel_sensitivity: 0,
    };
    let mut state = PanOrbitState::default_position();
    let mut transform = derive_transform(&state);
    let mut input = quiet_input();
    input.scroll_lines = FxVec2 { x: 0, y: -3 * FX_ONE };
    for _ in 0..40 {
        pan_orbit_tick(&settings, &mut state, &mut transform, &input);
    }
    assert!(state.radius > 0);
    assert!((to_f64(state.radius) - 0.1).abs() < 1e-3);
}

#[test]
fn ui_focus_gates_all_camera_input() {
    let settings = unit_orbit_settings();
    let mut state = PanOrbitState::default_position();
    let mut transform = derive_transform(&state);
    let before_state = state;
    let before_transform = transform;
    let mut input = quiet_input();
    input.pressed.right = true;
    input.motion = FxVec2 { x: -FX_ONE / 2, y: FX_ONE / 2 };
    input.ui_wants_pointer = true;
    assert!(!pan_orbit_tick(&settings, &mut state, &mut transform, &input));
    assert_eq!(state, before_state);
    assert_eq!(transform, before_transform);
    input.ui_wants_pointer = false;
    input.ui_wants_keyboard = true;
    assert!(!pan_orbit_tick(&settings, &mut state, &mut transform, &input));
    assert_eq!(state, before_state);
}

#[test]
fn quiet_tick_changes_nothing() {
    let settings = PanOrbitSettings::default();
    let mut state = PanOrbitState::default_position();
    let mut transform = derive_transform(&state);
    let before_state = state;
    let before_transform = transform;
    let input = quiet_input();
    assert!(!pan_orbit_tick(&settings, &mut state, &mut transform, &input));
    assert_eq!(state, before_state);
    assert_eq!(transform, before_transform);
}

#[test]
fn reset_determinism_after_mixed_operations() {
    let mut settings = unit_orbit_settings();
    settings.pan_sensitivity = FX_ONE / 100;
    settings.pan_button = Some(MouseButton::Middle);
    settings.zoom_sensitivity = FX_ONE / 10;
    settings.scroll_action = Some(PanOrbitAction::Zoom);
    let mut state = PanOrbitState::default_position();
    let mut transform = derive_transform(&state);
    // A messy sequence: orbit, pan, zoom.
    let mut orbit_in = quiet_input();
    orbit_in.pressed.right = true;
    orbit_in.just_pressed.right = true;
    orbit_in.motion = FxVec2 { x: FX_ONE / 3, y: -FX_ONE / 4 };
    pan_orbit_tick(&settings, &mut state, &mut transform, &orbit_in);
    let mut pan_in = quiet_input();
    pan_in.pressed.middle = true;
    pan_in.motion = FxVec2 { x: 7000, y: -4000 };
    pan_orbit_tick(&settings, &mut state, &mut transform, &pan_in);
    let mut zoom_in = quiet_input();
    zoom_in.scroll_lines = FxVec2 { x: 0, y: -FX_ONE };
    pan_orbit_tick(&settings, &mut state, &mut transform, &zoom_in);
    assert_ne!(state, PanOrbitState::default_position());

    reset_camera_now(&mut state, &mut transform);
    assert_eq!(state.center, FxVec3 { x: 0, y: 0, z: 0 });
    assert_eq!(state.radius, 6 * FX_ONE);
    assert_eq!(state.yaw, 0);
    assert_eq!(state.pitch, 0);
    assert!(!state.upside_down);
    let expected = CameraTransform {
        x_axis: FxVec3 { x: FX_ONE, y: 0, z: 0 },
        y_axis: FxVec3 { x: 0, y: FX_ONE, z: 0 },
        z_axis: FxVec3 { x: 0, y: 0, z: FX_ONE },
        translation: FxVec3 { x: 0, y: 0, z: 6 * FX_ONE },
    };
    assert_eq!(transform, expected);
}

#[test]
fn reset_key_respects_keyboard_focus() {
    let mut state = PanOrbitState::default_position();
    state.pitch = FX_ONE;
    let mut transform = derive_transform(&state);
    let before = state;
    assert!(!reset_camera_on_key(&mut state, &mut transform, true, true));
    assert_eq!(state, before);
    assert!(!reset_camera_on_key(&mut state, &mut transform, false, false));
    assert_eq!(state, before);
    assert!(reset_camera_on_key(&mut state, &mut transform, true, false));
    assert_eq!(state.pitch, 0);
}

#[test]
fn pan_moves_center_with_zoom_scaling() {
    let settings = PanOrbitSettings {
        pan_sensitivity: FX_ONE / 1000,
        orbit_sensitivity: 0,
        zoom_sensitivity: 0,
        pan_button: Some(MouseButton::Middle),
        orbit_button: None,
        zoom_button: None,
        scroll_action: None,
        scroll_line_sensitivity: FX_ONE,
        scroll_pixel_sensitivity: FX_ONE,
    };
    let mut state = PanOrbitState::default_position();
    let mut transform = derive_transform(&state);
    let mut input = quiet_input();
    input.pressed.middle = true;
    input.motion = FxVec2 { x: -100 * FX_ONE, y: 0 };
    assert!(pan_orbit_tick(&settings, &mut state, &mut transform, &input));
    // Identity orientation: right is +X; delta 0.1 times radius 6.
    assert!((to_f64(state.center.x) - 0.6).abs() < 1e-3);
    assert_eq!(state.center.y, 0);
    assert_eq!(state.center.z, 0);
}

#[test]
fn trig_exact_anchor_values() {
    assert_eq!(sin_fx(0), 0);
    assert_eq!(cos_fx(0), FX_ONE);
    assert_eq!(sin_fx(FX_PI), 0);
    assert_eq!(cos_fx(FX_PI), -FX_ONE);
    assert_eq!(exp_fx(0), FX_ONE);
}

#[test]
fn trig_approximate_values() {
    let half_pi = FX_PI / 2;
    assert!((to_f64(sin_fx(half_pi)) - 1.0).abs() < 1e-3);
    assert!(to_f64(cos_fx(half_pi)).abs() < 1e-3);
    let one = FX_ONE;
    assert!((to_f64(sin_fx(one)) - 1.0f64.sin()).abs() < 1e-3);
    assert!((to_f64(cos_fx(one)) - 1.0f64.cos()).abs() < 1e-3);
    assert!((to_f64(exp_fx(one)) - 1.0f64.exp()).abs() < 1e-2);
    assert!((to_f64(exp_fx(-one)) - (-1.0f64).exp()).abs() < 1e-3);
    // Angles beyond one turn reduce correctly.
    let big = 10 * FX_ONE;
    assert!((to_f64(sin_fx(big)) - 10.0f64.sin()).abs() < 1e-3);
    assert!((to_f64(cos_fx(big)) - 10.0f64.cos()).abs() < 1e-3);
}

#[test]
fn derive_transform_matches_yaw_pitch_rotation() {
    let mut state = PanOrbitState::default_position();
    state.yaw = FX_PI / 2;
    let t = derive_transform(&state);
    // Yaw a quarter turn: right becomes -Z-ish, back becomes +X-ish.
    assert!(to_f64(t.x_axis.x).abs() < 1e-3);
    assert!((to_f64(t.x_axis.z) + 1.0).abs() < 1e-3);
    assert!((to_f64(t.z_axis.x) - 1.0).abs() < 1e-3);
    assert!((to_f64(t.translation.x) - 6.0).abs() < 1e-2);
    assert!(to_f64(t.translation.z).abs() < 1e-2);
}
