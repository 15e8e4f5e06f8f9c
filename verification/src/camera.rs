//! The pan-orbit camera: orbit state, per-tick input application, transform
//! derivation and reset.
//!
//! The state is a look-at center, a distance (radius), a yaw in `(-pi, pi]`
//! and an unclamped pitch, plus an upside-down flag sampled when the orbit
//! button goes down.  Each tick the accumulated pointer motion and scroll
//! deltas are scaled by the configured sensitivities into pan, orbit and
//! zoom deltas; zoom multiplies the radius by `exp(-delta)`, orbit moves yaw
//! (wrapped once past half a turn) and pitch, pan moves the center along the
//! current right and up axes scaled by the radius.  While the UI layer
//! claims pointer or keyboard focus, all camera input of the tick is
//! suppressed.
//!
//! Numeric guards, each stated in the contracts: per-tick action deltas
//! saturate at half a turn, the radius is clamped to
//! `[MIN_RADIUS, MAX_RADIUS]` (the unbounded multiplicative zoom of the
//! bare rule would otherwise collapse or diverge), and pitch and center
//! saturate at limits far beyond any practical use.

use crate::fx::{
    FX_HALF_PI, FX_ONE, FX_PI, FX_TAU, clamp_spec, fx_abs, fx_add_clamped, fx_clamp, fx_mul,
    fx_mul_spec, lemma_fx_mul_spec_bound,
};
use crate::mesh::FxVec3;
use crate::trig::{cos_fx, cos_spec, exp_fx, exp_spec, sin_fx, sin_spec};
use vstd::prelude::*;

verus! {

/// The canonical orbit distance restored by a reset.
pub const DEFAULT_RADIUS: i64 = 6291456;

/// Smallest orbit distance (about a tenth of a unit): zoom clamps here
/// instead of collapsing into the center.
pub const MIN_RADIUS: i64 = 104857;

/// Largest orbit distance (a thousand units).
pub const MAX_RADIUS: i64 = 1048576000;

/// Largest magnitude of a center coordinate; pan saturates here.
pub const CENTER_LIMIT: i64 = 1099511627776;

/// Largest pitch magnitude; orbit saturates here.
pub const PITCH_LIMIT: i64 = 1099511627776;

/// Largest per-tick pan, orbit or zoom delta (half a turn): the computed
/// deltas saturate here, which keeps the single-step yaw wrap sufficient.
pub const MAX_TICK_DELTA: i64 = FX_PI;

/// Largest accepted per-tick accumulated input component.
pub const MAX_INPUT: i64 = 17179869184;

/// Largest magnitude of one motion or scroll event component.
pub const MAX_EVENT: i64 = 16777216;

/// Largest number of input events accumulated in one tick.
pub const MAX_EVENTS: usize = 1024;

/// Largest accepted sensitivity (sixty-four).
pub const MAX_SENSITIVITY: i64 = 67108864;

/// Bound on a rotation-matrix entry of a derived transform (sixteen).
pub const ROT_BOUND: i64 = 16777216;

/// Bound on a translation coordinate of a derived transform.
pub const TRANSLATION_LIMIT: i64 = 2199023255552;

/// A 2-component fixed-point vector.
#[derive(Clone, Copy, PartialEq, Eq, Structural, Debug)]
pub struct FxVec2 {
    pub x: i64,
    pub y: i64,
}

/// A mouse button.
#[derive(Clone, Copy, PartialEq, Eq, Structural, Debug)]
pub enum MouseButton {
    Left,
    Right,
    Middle,
    Back,
    Forward,
}

/// What the scroll wheel drives.
#[derive(Clone, Copy, PartialEq, Eq, Structural, Debug)]
pub enum PanOrbitAction {
    Pan,
    Orbit,
    Zoom,
}

/// The unit a scroll event is reported in.
#[derive(Clone, Copy, PartialEq, Eq, Structural, Debug)]
pub enum ScrollUnit {
    Line,
    Pixel,
}

/// One scroll event of a tick.
#[derive(Clone, Copy, PartialEq, Eq, Structural, Debug)]
pub struct ScrollEvent {
    pub unit: ScrollUnit,
    pub delta: FxVec2,
}

/// Which mouse buttons are down (or went down) this tick.
#[derive(Clone, Copy, PartialEq, Eq, Structural, Debug)]
pub struct ButtonStates {
    pub left: bool,
    pub right: bool,
    pub middle: bool,
    pub back: bool,
    pub forward: bool,
}

/// The per-camera configuration: sensitivities, button assignments, and the
/// single action driven by the scroll wheel.
#[derive(Clone, Copy, PartialEq, Eq, Structural, Debug)]
pub struct PanOrbitSettings {
    pub pan_sensitivity: i64,
    pub orbit_sensitivity: i64,
    pub zoom_sensitivity: i64,
    pub pan_button: Option<MouseButton>,
    pub orbit_button: Option<MouseButton>,
    pub zoom_button: Option<MouseButton>,
    pub scroll_action: Option<PanOrbitAction>,
    pub scroll_line_sensitivity: i64,
    pub scroll_pixel_sensitivity: i64,
}

/// The orbit state of the camera.
#[derive(Clone, Copy, PartialEq, Eq, Structural, Debug)]
pub struct PanOrbitState {
    pub center: FxVec3,
    pub radius: i64,
    pub upside_down: bool,
    pub pitch: i64,
    pub yaw: i64,
}

/// The derived world transform of the camera: a rotation (three column
/// axes) and a translation.
#[derive(Clone, Copy, PartialEq, Eq, Structural, Debug)]
pub struct CameraTransform {
    pub x_axis: FxVec3,
    pub y_axis: FxVec3,
    pub z_axis: FxVec3,
    pub translation: FxVec3,
}

/// The accumulated input of one tick, plus the UI focus flags that gate it.
#[derive(Clone, Copy, PartialEq, Eq, Structural, Debug)]
pub struct TickInput {
    pub motion: FxVec2,
    pub scroll_lines: FxVec2,
    pub scroll_pixels: FxVec2,
    pub pressed: ButtonStates,
    pub just_pressed: ButtonStates,
    pub ui_wants_pointer: bool,
    pub ui_wants_keyboard: bool,
}

impl PanOrbitSettings {
    /// Every sensitivity is nonnegative and bounded.
    pub open spec fn wf(&self) -> bool {
        &&& 0 <= self.pan_sensitivity <= MAX_SENSITIVITY
        &&& 0 <= self.orbit_sensitivity <= MAX_SENSITIVITY
        &&& 0 <= self.zoom_sensitivity <= MAX_SENSITIVITY
        &&& 0 <= self.scroll_line_sensitivity <= MAX_SENSITIVITY
        &&& 0 <= self.scroll_pixel_sensitivity <= MAX_SENSITIVITY
    }
}

impl PanOrbitState {
    /// The radius is inside its clamp range, the yaw inside `(-pi, pi]`,
    /// and pitch and center inside their saturation limits.
    pub open spec fn wf(&self) -> bool {
        &&& MIN_RADIUS <= self.radius <= MAX_RADIUS
        &&& -(FX_PI as int) < self.yaw <= FX_PI
        &&& fx_abs(self.pitch as int) <= PITCH_LIMIT
        &&& fx_abs(self.center.x as int) <= CENTER_LIMIT
        &&& fx_abs(self.center.y as int) <= CENTER_LIMIT
        &&& fx_abs(self.center.z as int) <= CENTER_LIMIT
    }
}

impl CameraTransform {
    /// Every rotation entry and translation coordinate is bounded.
    pub open spec fn wf(&self) -> bool {
        &&& fx_abs(self.x_axis.x as int) <= ROT_BOUND
        &&& fx_abs(self.x_axis.y as int) <= ROT_BOUND
        &&& fx_abs(self.x_axis.z as int) <= ROT_BOUND
        &&& fx_abs(self.y_axis.x as int) <= ROT_BOUND
        &&& fx_abs(self.y_axis.y as int) <= ROT_BOUND
        &&& fx_abs(self.y_axis.z as int) <= ROT_BOUND
        &&& fx_abs(self.z_axis.x as int) <= ROT_BOUND
        &&& fx_abs(self.z_axis.y as int) <= ROT_BOUND
        &&& fx_abs(self.z_axis.z as int) <= ROT_BOUND
        &&& fx_abs(self.translation.x as int) <= TRANSLATION_LIMIT
        &&& fx_abs(self.translation.y as int) <= TRANSLATION_LIMIT
        &&& fx_abs(self.translation.z as int) <= TRANSLATION_LIMIT
    }
}

impl TickInput {
    /// Every accumulated input component is bounded.
    pub open spec fn wf(&self) -> bool {
        &&& fx_abs(self.motion.x as int) <= MAX_INPUT
        &&& fx_abs(self.motion.y as int) <= MAX_INPUT
        &&& fx_abs(self.scroll_lines.x as int) <= MAX_INPUT
        &&& fx_abs(self.scroll_lines.y as int) <= MAX_INPUT
        &&& fx_abs(self.scroll_pixels.x as int) <= MAX_INPUT
        &&& fx_abs(self.scroll_pixels.y as int) <= MAX_INPUT
    }
}

/// The fallback orbit state: looking at the origin from one unit away.
pub open spec fn base_state() -> PanOrbitState {
    (PanOrbitState {
        center: FxVec3 { x: 0, y: 0, z: 0 },
        radius: FX_ONE,
        upside_down: false,
        pitch: 0,
        yaw: 0,
    })
}

/// The canonical orbit state restored by a reset: looking at the origin
/// from the default radius, level.
pub open spec fn default_position_state() -> PanOrbitState {
    (PanOrbitState {
        center: FxVec3 { x: 0, y: 0, z: 0 },
        radius: DEFAULT_RADIUS,
        upside_down: false,
        pitch: 0,
        yaw: 0,
    })
}

impl Default for PanOrbitState {
    /// The fallback orbit state.
    fn default() -> (s: Self)
        ensures
            s == base_state(),
            s.wf(),
    {
        PanOrbitState {
            center: FxVec3 { x: 0, y: 0, z: 0 },
            radius: FX_ONE,
            upside_down: false,
            pitch: 0,
            yaw: 0,
        }
    }
}

impl PanOrbitState {
    /// The canonical orbit state restored by a reset.
    pub fn default_position() -> (s: Self)
        ensures
            s == default_position_state(),
            s.wf(),
    {
        PanOrbitState {
            center: FxVec3 { x: 0, y: 0, z: 0 },
            radius: DEFAULT_RADIUS,
            upside_down: false,
            pitch: 0,
            yaw: 0,
        }
    }
}

/// The default configuration: pan on the middle button at a thousandth,
/// orbit on the right button at a tenth of a degree per count, scroll
/// zooming at a hundredth, sixteen counts per scroll line and one per
/// scroll pixel (each the nearest fixed-point value).
pub open spec fn default_orbit_settings() -> PanOrbitSettings {
    (PanOrbitSettings {
        pan_sensitivity: 1049,
        orbit_sensitivity: 1830,
        zoom_sensitivity: 10486,
        pan_button: Some(MouseButton::Middle),
        orbit_button: Some(MouseButton::Right),
        zoom_button: None,
        scroll_action: Some(PanOrbitAction::Zoom),
        scroll_line_sensitivity: 16777216,
        scroll_pixel_sensitivity: 1048576,
    })
}

impl Default for PanOrbitSettings {
    /// The default configuration.
    fn default() -> (s: Self)
        ensures
            s == default_orbit_settings(),
            s.wf(),
    {
        PanOrbitSettings {
            pan_sensitivity: 1049,
            orbit_sensitivity: 1830,
            zoom_sensitivity: 10486,
            pan_button: Some(MouseButton::Middle),
            orbit_button: Some(MouseButton::Right),
            zoom_button: None,
            scroll_action: Some(PanOrbitAction::Zoom),
            scroll_line_sensitivity: 16777216,
            scroll_pixel_sensitivity: 1048576,
        }
    }
}

/// Whether `btn` is down in `b`.
pub open spec fn pressed_spec(b: ButtonStates, btn: MouseButton) -> bool {
    match btn {
        MouseButton::Left => b.left,
        MouseButton::Right => b.right,
        MouseButton::Middle => b.middle,
        MouseButton::Back => b.back,
        MouseButton::Forward => b.forward,
    }
}

/// Whether a configured button is down; an unassigned button never is.
pub open spec fn opt_pressed_spec(b: ButtonStates, btn: Option<MouseButton>) -> bool {
    match btn {
        Some(m) => pressed_spec(b, m),
        None => false,
    }
}

/// Whether a configured button is down, executable form.
pub fn opt_pressed(b: &ButtonStates, btn: Option<MouseButton>) -> (r: bool)
    ensures
        r == opt_pressed_spec(*b, btn),
{
    match btn {
        Some(MouseButton::Left) => b.left,
        Some(MouseButton::Right) => b.right,
        Some(MouseButton::Middle) => b.middle,
        Some(MouseButton::Back) => b.back,
        Some(MouseButton::Forward) => b.forward,
        None => false,
    }
}

/// Whether the scroll wheel is assigned to the given action.
pub open spec fn scroll_action_is_spec(a: Option<PanOrbitAction>, t: PanOrbitAction) -> bool {
    match a {
        Some(x) => x == t,
        None => false,
    }
}

/// Whether the scroll wheel is assigned to the given action, executable
/// form.
pub fn scroll_action_is(a: Option<PanOrbitAction>, t: PanOrbitAction) -> (r: bool)
    ensures
        r == scroll_action_is_spec(a, t),
{
    match a {
        Some(x) => x == t,
        None => false,
    }
}

/// The sum of the horizontal components of a motion event sequence.
pub open spec fn motion_sum_x(s: Seq<FxVec2>) -> int
    decreases s.len(),
{
    if s.len() == 0 {
        0
    } else {
        motion_sum_x(s.drop_last()) + s.last().x
    }
}

/// The sum of the vertical components of a motion event sequence.
pub open spec fn motion_sum_y(s: Seq<FxVec2>) -> int
    decreases s.len(),
{
    if s.len() == 0 {
        0
    } else {
        motion_sum_y(s.drop_last()) + s.last().y
    }
}

/// Sum a tick's pointer-motion events into one delta, with the vertical
/// axis sign-inverted to match the world convention.
pub fn accumulate_motion(events: &Vec<FxVec2>) -> (m: FxVec2)
    requires
        events@.len() <= MAX_EVENTS,
        forall|i: int|
            0 <= i < events@.len() ==> fx_abs((#[trigger] events@[i]).x as int) <= MAX_EVENT
                && fx_abs(events@[i].y as int) <= MAX_EVENT,
    ensures
        m.x == motion_sum_x(events@),
        m.y == -motion_sum_y(events@),
        fx_abs(m.x as int) <= MAX_INPUT,
        fx_abs(m.y as int) <= MAX_INPUT,
{
    let mut sx: i64 = 0;
    let mut sy: i64 = 0;
    let n = events.len();
    for i in 0..n
        invariant
            n == events@.len(),
            n <= MAX_EVENTS,
            forall|j: int|
                0 <= j < events@.len() ==> fx_abs((#[trigger] events@[j]).x as int) <= MAX_EVENT
                    && fx_abs(events@[j].y as int) <= MAX_EVENT,
            sx == motion_sum_x(events@.take(i as int)),
            sy == motion_sum_y(events@.take(i as int)),
            fx_abs(sx as int) <= i * MAX_EVENT,
            fx_abs(sy as int) <= i * MAX_EVENT,
    {
        proof {
            assert(events@.take(i + 1).drop_last() =~= events@.take(i as int));
            assert(events@.take(i + 1).last() == events@[i as int]);
            assert((i + 1) * (MAX_EVENT as int) == i * MAX_EVENT + MAX_EVENT) by (nonlinear_arith);
            assert(i * (MAX_EVENT as int) <= 1024 * (MAX_EVENT as int)) by (nonlinear_arith)
                requires
                    0 <= i as int <= 1024,
        ;
        }
        sx = sx + events[i].x;
        sy = sy + events[i].y;
    }
    proof {
        assert(events@.take(n as int) =~= events@);
        assert(n * (MAX_EVENT as int) <= 1024 * (MAX_EVENT as int)) by (nonlinear_arith)
            requires
                0 <= n as int <= 1024,
        ;
    }
    FxVec2 { x: sx, y: -sy }
}

/// The sum of the horizontal components of the scroll events of one unit.
pub open spec fn scroll_sum_x(s: Seq<ScrollEvent>, unit: ScrollUnit) -> int
    decreases s.len(),
{
    if s.len() == 0 {
        0
    } else {
        scroll_sum_x(s.drop_last(), unit) + if s.last().unit == unit {
            s.last().delta.x as int
        } else {
            0
        }
    }
}

/// The sum of the vertical components of the scroll events of one unit.
pub open spec fn scroll_sum_y(s: Seq<ScrollEvent>, unit: ScrollUnit) -> int
    decreases s.len(),
{
    if s.len() == 0 {
        0
    } else {
        scroll_sum_y(s.drop_last(), unit) + if s.last().unit == unit {
            s.last().delta.y as int
        } else {
            0
        }
    }
}

/// Sum a tick's scroll events into one delta per unit kind (lines and
/// pixels), with the vertical axis sign-inverted.
pub fn accumulate_scroll(events: &Vec<ScrollEvent>) -> (r: (FxVec2, FxVec2))
    requires
        events@.len() <= MAX_EVENTS,
        forall|i: int|
            0 <= i < events@.len() ==> fx_abs((#[trigger] events@[i]).delta.x as int) <= MAX_EVENT
                && fx_abs(events@[i].delta.y as int) <= MAX_EVENT,
    ensures
        r.0.x == scroll_sum_x(events@, ScrollUnit::Line),
        r.0.y == -scroll_sum_y(events@, ScrollUnit::Line),
        r.1.x == scroll_sum_x(events@, ScrollUnit::Pixel),
        r.1.y == -scroll_sum_y(events@, ScrollUnit::Pixel),
        fx_abs(r.0.x as int) <= MAX_INPUT,
        fx_abs(r.0.y as int) <= MAX_INPUT,
        fx_abs(r.1.x as int) <= MAX_INPUT,
        fx_abs(r.1.y as int) <= MAX_INPUT,
{
    let mut lx: i64 = 0;
    let mut ly: i64 = 0;
    let mut px: i64 = 0;
    let mut py: i64 = 0;
    let n = events.len();
    for i in 0..n
        invariant
            n == events@.len(),
            n <= MAX_EVENTS,
            forall|j: int|
                0 <= j < events@.len() ==> fx_abs((#[trigger] events@[j]).delta.x as int)
                    <= MAX_EVENT && fx_abs(events@[j].delta.y as int) <= MAX_EVENT,
            lx == scroll_sum_x(events@.take(i as int), ScrollUnit::Line),
            ly == scroll_sum_y(events@.take(i as int), ScrollUnit::Line),
            px == scroll_sum_x(events@.take(i as int), ScrollUnit::Pixel),
            py == scroll_sum_y(events@.take(i as int), ScrollUnit::Pixel),
            fx_abs(lx as int) <= i * MAX_EVENT,
            fx_abs(ly as int) <= i * MAX_EVENT,
            fx_abs(px as int) <= i * MAX_EVENT,
            fx_abs(py as int) <= i * MAX_EVENT,
    {
        proof {
            assert(events@.take(i + 1).drop_last() =~= events@.take(i as int));
            assert(events@.take(i + 1).last() == events@[i as int]);
            assert((i + 1) * (MAX_EVENT as int) == i * MAX_EVENT + MAX_EVENT) by (nonlinear_arith);
            assert(i * (MAX_EVENT as int) <= 1024 * (MAX_EVENT as int)) by (nonlinear_arith)
                requires
                    0 <= i as int <= 1024,
        ;
        }
        let ev = events[i];
        match ev.unit {
            ScrollUnit::Line => {
                lx = lx + ev.delta.x;
                ly = ly + ev.delta.y;
            },
            ScrollUnit::Pixel => {
                px = px + ev.delta.x;
                py = py + ev.delta.y;
            },
        }
    }
    proof {
        assert(events@.take(n as int) =~= events@);
        assert(n * (MAX_EVENT as int) <= 1024 * (MAX_EVENT as int)) by (nonlinear_arith)
            requires
                0 <= n as int <= 1024,
        ;
    }
    (FxVec2 { x: lx, y: -ly }, FxVec2 { x: px, y: -py })
}

/// The raw delta of one action this tick: the pointer motion while the
/// action's button is held, plus the scroll input when the wheel drives the
/// action, each negated and scaled by the sensitivities.
pub open spec fn raw_action_delta(
    input: TickInput,
    motion_active: bool,
    scroll_active: bool,
    sens: int,
    line_sens: int,
    pixel_sens: int,
) -> (int, int) {
    let mx: int = if motion_active {
        -fx_mul_spec(input.motion.x as int, sens)
    } else {
        0
    };
    let my: int = if motion_active {
        -fx_mul_spec(input.motion.y as int, sens)
    } else {
        0
    };
    let sx: int = if scroll_active {
        -fx_mul_spec(fx_mul_spec(input.scroll_lines.x as int, line_sens), sens) - fx_mul_spec(
            fx_mul_spec(input.scroll_pixels.x as int, pixel_sens),
            sens,
        )
    } else {
        0
    };
    let sy: int = if scroll_active {
        -fx_mul_spec(fx_mul_spec(input.scroll_lines.y as int, line_sens), sens) - fx_mul_spec(
            fx_mul_spec(input.scroll_pixels.y as int, pixel_sens),
            sens,
        )
    } else {
        0
    };
    (mx + sx, my + sy)
}

/// One action's delta with each component saturated at the per-tick bound.
pub open spec fn action_delta(
    input: TickInput,
    motion_active: bool,
    scroll_active: bool,
    sens: int,
    line_sens: int,
    pixel_sens: int,
) -> (int, int) {
    let raw = raw_action_delta(input, motion_active, scroll_active, sens, line_sens, pixel_sens);
    (
        clamp_spec(raw.0, -(MAX_TICK_DELTA as int), MAX_TICK_DELTA as int),
        clamp_spec(raw.1, -(MAX_TICK_DELTA as int), MAX_TICK_DELTA as int),
    )
}

/// This tick's pan delta.
pub open spec fn pan_delta_spec(s: PanOrbitSettings, input: TickInput) -> (int, int) {
    action_delta(
        input,
        opt_pressed_spec(input.pressed, s.pan_button),
        scroll_action_is_spec(s.scroll_action, PanOrbitAction::Pan),
        s.pan_sensitivity as int,
        s.scroll_line_sensitivity as int,
        s.scroll_pixel_sensitivity as int,
    )
}

/// This tick's orbit delta.
pub open spec fn orbit_delta_spec(s: PanOrbitSettings, input: TickInput) -> (int, int) {
    action_delta(
        input,
        opt_pressed_spec(input.pressed, s.orbit_button),
        scroll_action_is_spec(s.scroll_action, PanOrbitAction::Orbit),
        s.orbit_sensitivity as int,
        s.scroll_line_sensitivity as int,
        s.scroll_pixel_sensitivity as int,
    )
}

/// This tick's zoom delta.
pub open spec fn zoom_delta_spec(s: PanOrbitSettings, input: TickInput) -> (int, int) {
    action_delta(
        input,
        opt_pressed_spec(input.pressed, s.zoom_button),
        scroll_action_is_spec(s.scroll_action, PanOrbitAction::Zoom),
        s.zoom_sensitivity as int,
        s.scroll_line_sensitivity as int,
        s.scroll_pixel_sensitivity as int,
    )
}

/// Compute one action's saturated delta.
fn compute_action_delta(
    input: &TickInput,
    motion_active: bool,
    scroll_active: bool,
    sens: i64,
    line_sens: i64,
    pixel_sens: i64,
) -> (d: FxVec2)
    requires
        input.wf(),
        0 <= sens <= MAX_SENSITIVITY,
        0 <= line_sens <= MAX_SENSITIVITY,
        0 <= pixel_sens <= MAX_SENSITIVITY,
    ensures
        (d.x as int, d.y as int) == action_delta(
            *input,
            motion_active,
            scroll_active,
            sens as int,
            line_sens as int,
            pixel_sens as int,
        ),
        fx_abs(d.x as int) <= MAX_TICK_DELTA,
        fx_abs(d.y as int) <= MAX_TICK_DELTA,
{
    proof {
        lemma_fx_mul_spec_bound(
            input.motion.x as int,
            sens as int,
            MAX_INPUT as int,
            MAX_SENSITIVITY as int,
        );
        lemma_fx_mul_spec_bound(
            input.motion.y as int,
            sens as int,
            MAX_INPUT as int,
            MAX_SENSITIVITY as int,
        );
        lemma_fx_mul_spec_bound(
            input.scroll_lines.x as int,
            line_sens as int,
            MAX_INPUT as int,
            MAX_SENSITIVITY as int,
        );
        lemma_fx_mul_spec_bound(
            input.scroll_lines.y as int,
            line_sens as int,
            MAX_INPUT as int,
            MAX_SENSITIVITY as int,
        );
        lemma_fx_mul_spec_bound(
            input.scroll_pixels.x as int,
            pixel_sens as int,
            MAX_INPUT as int,
            MAX_SENSITIVITY as int,
        );
        lemma_fx_mul_spec_bound(
            input.scroll_pixels.y as int,
            pixel_sens as int,
            MAX_INPUT as int,
            MAX_SENSITIVITY as int,
        );
        lemma_fx_mul_spec_bound(
            fx_mul_spec(input.scroll_lines.x as int, line_sens as int),
            sens as int,
            1099511627776,
            MAX_SENSITIVITY as int,
        );
        lemma_fx_mul_spec_bound(
            fx_mul_spec(input.scroll_lines.y as int, line_sens as int),
            sens as int,
            1099511627776,
            MAX_SENSITIVITY as int,
        );
        lemma_fx_mul_spec_bound(
            fx_mul_spec(input.scroll_pixels.x as int, pixel_sens as int),
            sens as int,
            1099511627776,
            MAX_SENSITIVITY as int,
        );
        lemma_fx_mul_spec_bound(
            fx_mul_spec(input.scroll_pixels.y as int, pixel_sens as int),
            sens as int,
            1099511627776,
            MAX_SENSITIVITY as int,
        );
    }
    let mx: i64 = if motion_active {
        -fx_mul(input.motion.x, sens)
    } else {
        0
    };
    let my: i64 = if motion_active {
        -fx_mul(input.motion.y, sens)
    } else {
        0
    };
    let sx: i64 = if scroll_active {
        -fx_mul(fx_mul(input.scroll_lines.x, line_sens), sens) - fx_mul(
            fx_mul(input.scroll_pixels.x, pixel_sens),
            sens,
        )
    } else {
        0
    };
    let sy: i64 = if scroll_active {
        -fx_mul(fx_mul(input.scroll_lines.y, line_sens), sens) - fx_mul(
            fx_mul(input.scroll_pixels.y, pixel_sens),
            sens,
        )
    } else {
        0
    };
    FxVec2 {
        x: fx_clamp(mx + sx, -MAX_TICK_DELTA, MAX_TICK_DELTA),
        y: fx_clamp(my + sy, -MAX_TICK_DELTA, MAX_TICK_DELTA),
    }
}

/// The transform derived from an orbit state: the orientation is the yaw
/// about the world up axis followed by the pitch about the local right
/// axis; the position is the center plus the rotated back axis scaled by
/// the radius.
pub open spec fn derive_transform_spec(st: PanOrbitState) -> CameraTransform {
    let sy = sin_spec(st.yaw as int);
    let cy = cos_spec(st.yaw as int);
    let sp = sin_spec(st.pitch as int);
    let cp = cos_spec(st.pitch as int);
    let zx = fx_mul_spec(sy, cp);
    let zy = -sp;
    let zz = fx_mul_spec(cy, cp);
    (CameraTransform {
        x_axis: FxVec3 { x: cy as i64, y: 0, z: (-sy) as i64 },
        y_axis: FxVec3 {
            x: fx_mul_spec(sy, sp) as i64,
            y: cp as i64,
            z: fx_mul_spec(cy, sp) as i64,
        },
        z_axis: FxVec3 { x: zx as i64, y: zy as i64, z: zz as i64 },
        translation: FxVec3 {
            x: (st.center.x + fx_mul_spec(zx, st.radius as int)) as i64,
            y: (st.center.y + fx_mul_spec(zy, st.radius as int)) as i64,
            z: (st.center.z + fx_mul_spec(zz, st.radius as int)) as i64,
        },
    })
}

/// Derive the camera transform from an orbit state.
pub fn derive_transform(st: &PanOrbitState) -> (t: CameraTransform)
    requires
        st.wf(),
    ensures
        t == derive_transform_spec(*st),
        t.wf(),
{
    let sy = sin_fx(st.yaw);
    let cy = cos_fx(st.yaw);
    let sp = sin_fx(st.pitch);
    let cp = cos_fx(st.pitch);
    proof {
        let tb = crate::trig::TRIG_BOUND as int;
        lemma_fx_mul_spec_bound(sy as int, sp as int, tb, tb);
        lemma_fx_mul_spec_bound(cy as int, sp as int, tb, tb);
        lemma_fx_mul_spec_bound(sy as int, cp as int, tb, tb);
        lemma_fx_mul_spec_bound(cy as int, cp as int, tb, tb);
        lemma_fx_mul_spec_bound(
            fx_mul_spec(sy as int, cp as int),
            st.radius as int,
            ROT_BOUND as int,
            MAX_RADIUS as int,
        );
        lemma_fx_mul_spec_bound(
            -(sp as int),
            st.radius as int,
            ROT_BOUND as int,
            MAX_RADIUS as int,
        );
        lemma_fx_mul_spec_bound(
            fx_mul_spec(cy as int, cp as int),
            st.radius as int,
            ROT_BOUND as int,
            MAX_RADIUS as int,
        );
    }
    let zx = fx_mul(sy, cp);
    let zy = -sp;
    let zz = fx_mul(cy, cp);
    CameraTransform {
        x_axis: FxVec3 { x: cy, y: 0, z: -sy },
        y_axis: FxVec3 { x: fx_mul(sy, sp), y: cp, z: fx_mul(cy, sp) },
        z_axis: FxVec3 { x: zx, y: zy, z: zz },
        translation: FxVec3 {
            x: st.center.x + fx_mul(zx, st.radius),
            y: st.center.y + fx_mul(zy, st.radius),
            z: st.center.z + fx_mul(zz, st.radius),
        },
    }
}

/// Wrap a yaw once past either end of `(-pi, pi]`: past the upper end a
/// full turn is subtracted, at or past the lower end a full turn is added.
pub open spec fn wrap_yaw_spec(y: int) -> int {
    if y > FX_PI {
        y - FX_TAU
    } else if y <= -(FX_PI as int) {
        y + FX_TAU
    } else {
        y
    }
}

/// Wrap a yaw once past either end of `(-pi, pi]`.
pub fn wrap_yaw(y: i64) -> (r: i64)
    requires
        fx_abs(y as int) <= 2 * (FX_TAU as int),
    ensures
        r == wrap_yaw_spec(y as int),
{
    if y > FX_PI {
        y - FX_TAU
    } else if y <= -FX_PI {
        y + FX_TAU
    } else {
        y
    }
}

/// Zoom applied to the state: a nonzero delta multiplies the radius by
/// `exp(-delta)` and clamps it; a zero delta leaves the state untouched.
pub open spec fn zoom_applied(st: PanOrbitState, zoom: (int, int)) -> PanOrbitState {
    if zoom != (0int, 0int) {
        PanOrbitState {
            radius: clamp_spec(
                fx_mul_spec(st.radius as int, exp_spec(-zoom.1)),
                MIN_RADIUS as int,
                MAX_RADIUS as int,
            ) as i64,
            ..st
        }
    } else {
        st
    }
}

/// Orbit applied to the state: on the press edge the upside-down flag is
/// resampled from the current pitch; while upside down the horizontal delta
/// is negated; the yaw wraps once, the pitch saturates.
pub open spec fn orbit_applied(st: PanOrbitState, orbit: (int, int), just_pressed: bool)
    -> PanOrbitState {
    if orbit != (0int, 0int) {
        let upside = if just_pressed {
            st.pitch < -(FX_HALF_PI as int) || st.pitch > FX_HALF_PI
        } else {
            st.upside_down
        };
        let ox = if upside {
            -orbit.0
        } else {
            orbit.0
        };
        PanOrbitState {
            upside_down: upside,
            yaw: wrap_yaw_spec(st.yaw + ox) as i64,
            pitch: clamp_spec(
                st.pitch + orbit.1,
                -(PITCH_LIMIT as int),
                PITCH_LIMIT as int,
            ) as i64,
            ..st
        }
    } else {
        st
    }
}

/// Pan applied to the state: the center moves along the transform's right
/// and up axes, each step scaled by the pan delta and the (already zoomed)
/// radius, saturating at the center limit after each of the two steps.
pub open spec fn pan_applied(st: PanOrbitState, tr: CameraTransform, pan: (int, int))
    -> PanOrbitState {
    if pan != (0int, 0int) {
        let dxr = fx_mul_spec(pan.0, st.radius as int);
        let dyr = fx_mul_spec(pan.1, st.radius as int);
        let cl = CENTER_LIMIT as int;
        PanOrbitState {
            center: FxVec3 {
                x: clamp_spec(
                    clamp_spec(st.center.x + fx_mul_spec(tr.x_axis.x as int, dxr), -cl, cl)
                        + fx_mul_spec(tr.y_axis.x as int, dyr),
                    -cl,
                    cl,
                ) as i64,
                y: clamp_spec(
                    clamp_spec(st.center.y + fx_mul_spec(tr.x_axis.y as int, dxr), -cl, cl)
                        + fx_mul_spec(tr.y_axis.y as int, dyr),
                    -cl,
                    cl,
                ) as i64,
                z: clamp_spec(
                    clamp_spec(st.center.z + fx_mul_spec(tr.x_axis.z as int, dxr), -cl, cl)
                        + fx_mul_spec(tr.y_axis.z as int, dyr),
                    -cl,
                    cl,
                ) as i64,
            },
            ..st
        }
    } else {
        st
    }
}

/// Whether this tick's camera input is suppressed: the UI layer claims the
/// pointer or the keyboard.
pub open spec fn tick_gated(input: TickInput) -> bool {
    input.ui_wants_pointer || input.ui_wants_keyboard
}

/// The orbit state after one tick: zoom, then orbit, then pan, each only
/// when its delta is nonzero; nothing when the tick is gated.
pub open spec fn tick_state_spec(
    s: PanOrbitSettings,
    st: PanOrbitState,
    tr: CameraTransform,
    input: TickInput,
) -> PanOrbitState {
    if tick_gated(input) {
        st
    } else {
        let st1 = zoom_applied(st, zoom_delta_spec(s, input));
        let st2 = orbit_applied(
            st1,
            orbit_delta_spec(s, input),
            opt_pressed_spec(input.just_pressed, s.orbit_button),
        );
        pan_applied(st2, tr, pan_delta_spec(s, input))
    }
}

/// Whether one tick changes the camera: it is not gated and some action has
/// a nonzero delta.
pub open spec fn tick_changed_spec(s: PanOrbitSettings, input: TickInput) -> bool {
    !tick_gated(input) && (zoom_delta_spec(s, input) != (0int, 0int) || orbit_delta_spec(s, input)
        != (0int, 0int) || pan_delta_spec(s, input) != (0int, 0int))
}

/// Apply one tick of accumulated input to the camera.  The transform is
/// re-derived only when some delta was applied; otherwise both state and
/// transform stay exactly as they were.
#[verifier::rlimit(100)]
pub fn pan_orbit_tick(
    settings: &PanOrbitSettings,
    state: &mut PanOrbitState,
    transform: &mut CameraTransform,
    input: &TickInput,
) -> (changed: bool)
    requires
        settings.wf(),
        old(state).wf(),
        old(transform).wf(),
        input.wf(),
    ensures
        changed == tick_changed_spec(*settings, *input),
        *final(state) == tick_state_spec(*settings, *old(state), *old(transform), *input),
        *final(transform) == if changed {
            derive_transform_spec(*final(state))
        } else {
            *old(transform)
        },
        final(state).wf(),
        final(transform).wf(),
{
    if input.ui_wants_pointer || input.ui_wants_keyboard {
        return false;
    }
    let pan = compute_action_delta(
        input,
        opt_pressed(&input.pressed, settings.pan_button),
        scroll_action_is(settings.scroll_action, PanOrbitAction::Pan),
        settings.pan_sensitivity,
        settings.scroll_line_sensitivity,
        settings.scroll_pixel_sensitivity,
    );
    let orbit = compute_action_delta(
        input,
        opt_pressed(&input.pressed, settings.orbit_button),
        scroll_action_is(settings.scroll_action, PanOrbitAction::Orbit),
        settings.orbit_sensitivity,
        settings.scroll_line_sensitivity,
        settings.scroll_pixel_sensitivity,
    );
    let zoom = compute_action_delta(
        input,
        opt_pressed(&input.pressed, settings.zoom_button),
        scroll_action_is(settings.scroll_action, PanOrbitAction::Zoom),
        settings.zoom_sensitivity,
        settings.scroll_line_sensitivity,
        settings.scroll_pixel_sensitivity,
    );
    let mut any = false;
    if !(zoom.x == 0 && zoom.y == 0) {
        any = true;
        let factor = exp_fx(-zoom.y);
        let scaled = fx_mul(state.radius, factor);
        state.radius = fx_clamp(scaled, MIN_RADIUS, MAX_RADIUS);
    }
    if !(orbit.x == 0 && orbit.y == 0) {
        any = true;
        if opt_pressed(&input.just_pressed, settings.orbit_button) {
            state.upside_down = state.pitch < -FX_HALF_PI || state.pitch > FX_HALF_PI;
        }
        let ox = if state.upside_down {
            -orbit.x
        } else {
            orbit.x
        };
        state.yaw = wrap_yaw(state.yaw + ox);
        state.pitch = fx_add_clamped(state.pitch, orbit.y, -PITCH_LIMIT, PITCH_LIMIT);
        proof {
            lemma_yaw_wrap(old(state).yaw as int, ox as int);
        }
    }
    if !(pan.x == 0 && pan.y == 0) {
        any = true;
        proof {
            lemma_fx_mul_spec_bound(
                pan.x as int,
                state.radius as int,
                MAX_TICK_DELTA as int,
                MAX_RADIUS as int,
            );
            lemma_fx_mul_spec_bound(
                pan.y as int,
                state.radius as int,
                MAX_TICK_DELTA as int,
                MAX_RADIUS as int,
            );
        }
        let dxr = fx_mul(pan.x, state.radius);
        let dyr = fx_mul(pan.y, state.radius);
        proof {
            lemma_fx_mul_spec_bound(
                transform.x_axis.x as int,
                dxr as int,
                ROT_BOUND as int,
                3294199000000,
            );
            lemma_fx_mul_spec_bound(
                transform.x_axis.y as int,
                dxr as int,
                ROT_BOUND as int,
                3294199000000,
            );
            lemma_fx_mul_spec_bound(
                transform.x_axis.z as int,
                dxr as int,
                ROT_BOUND as int,
                3294199000000,
            );
            lemma_fx_mul_spec_bound(
                transform.y_axis.x as int,
                dyr as int,
                ROT_BOUND as int,
                3294199000000,
            );
            lemma_fx_mul_spec_bound(
                transform.y_axis.y as int,
                dyr as int,
                ROT_BOUND as int,
                3294199000000,
            );
            lemma_fx_mul_spec_bound(
                transform.y_axis.z as int,
                dyr as int,
                ROT_BOUND as int,
                3294199000000,
            );
        }
        state.center = FxVec3 {
            x: fx_add_clamped(
                fx_add_clamped(
                    state.center.x,
                    fx_mul(transform.x_axis.x, dxr),
                    -CENTER_LIMIT,
                    CENTER_LIMIT,
                ),
                fx_mul(transform.y_axis.x, dyr),
                -CENTER_LIMIT,
                CENTER_LIMIT,
            ),
            y: fx_add_clamped(
                fx_add_clamped(
                    state.center.y,
                    fx_mul(transform.x_axis.y, dxr),
                    -CENTER_LIMIT,
                    CENTER_LIMIT,
                ),
                fx_mul(transform.y_axis.y, dyr),
                -CENTER_LIMIT,
                CENTER_LIMIT,
            ),
            z: fx_add_clamped(
                fx_add_clamped(
                    state.center.z,
                    fx_mul(transform.x_axis.z, dxr),
                    -CENTER_LIMIT,
                    CENTER_LIMIT,
                ),
                fx_mul(transform.y_axis.z, dyr),
                -CENTER_LIMIT,
                CENTER_LIMIT,
            ),
        };
    }
    if any {
        *transform = derive_transform(state);
    }
    any
}

/// Replace the orbit state with the canonical default and publish the
/// transform derived from it (the UI's direct reset, exempt from gating).
pub fn reset_camera_now(state: &mut PanOrbitState, transform: &mut CameraTransform)
    ensures
        *final(state) == default_position_state(),
        final(state).wf(),
        *final(transform) == derive_transform_spec(default_position_state()),
        final(transform).wf(),
{
    *state = PanOrbitState::default_position();
    *transform = derive_transform(state);
}

/// The keybinding reset: runs only when the reset key went down this tick
/// and the UI layer does not claim the keyboard.
pub fn reset_camera_on_key(
    state: &mut PanOrbitState,
    transform: &mut CameraTransform,
    reset_key_just_pressed: bool,
    ui_wants_keyboard: bool,
) -> (changed: bool)
    ensures
        changed == (reset_key_just_pressed && !ui_wants_keyboard),
        changed ==> *final(state) == default_position_state() && *final(transform)
            == derive_transform_spec(default_position_state()) && final(state).wf()
            && final(transform).wf(),
        !changed ==> *final(state) == *old(state) && *final(transform) == *old(transform),
{
    if reset_key_just_pressed && !ui_wants_keyboard {
        reset_camera_now(state, transform);
        true
    } else {
        false
    }
}

/// Yaw wrap: from a yaw inside `(-pi, pi]`, any orbit delta within the
/// per-tick bound lands back inside `(-pi, pi]` after the single wrap step,
/// shifted by exactly one full turn when it overflowed either end.
pub proof fn lemma_yaw_wrap(yaw: int, delta: int)
    requires
        -(FX_PI as int) < yaw <= FX_PI,
        fx_abs(delta) <= MAX_TICK_DELTA,
    ensures
        -(FX_PI as int) < wrap_yaw_spec(yaw + delta) <= FX_PI,
        wrap_yaw_spec(yaw + delta) == yaw + delta || wrap_yaw_spec(yaw + delta) == yaw + delta
            - FX_TAU || wrap_yaw_spec(yaw + delta) == yaw + delta + FX_TAU,
{
}

/// Pole flip: when the orbit delta is nonzero, the press edge resamples the
/// upside-down flag from the current pitch (true exactly when the pitch is
/// beyond either pole), without the edge the flag is kept; and the yaw
/// moves by the negated horizontal delta exactly when the (resampled) flag
/// is set.
pub proof fn lemma_pole_flip(st: PanOrbitState, orbit: (int, int), just_pressed: bool)
    requires
        orbit != (0int, 0int),
        -(FX_PI as int) < st.yaw <= FX_PI,
        fx_abs(orbit.0) <= MAX_TICK_DELTA,
    ensures
        just_pressed ==> orbit_applied(st, orbit, just_pressed).upside_down == (st.pitch < -(
        FX_HALF_PI as int) || st.pitch > FX_HALF_PI),
        !just_pressed ==> orbit_applied(st, orbit, just_pressed).upside_down == st.upside_down,
        orbit_applied(st, orbit, just_pressed).yaw == wrap_yaw_spec(
            st.yaw + if orbit_applied(st, orbit, just_pressed).upside_down {
                -orbit.0
            } else {
                orbit.0
            },
        ),
{
}

/// Reset determinism: whatever history produced the current state, reset
/// installs one canonical state — origin center, the default radius, level
/// yaw and pitch, not upside down — and its derived transform is exactly
/// the identity orientation with the camera backed off by the default
/// radius along the world back axis.
pub proof fn lemma_reset_canonical()
    ensures
        default_position_state() == (PanOrbitState {
            center: FxVec3 { x: 0, y: 0, z: 0 },
            radius: DEFAULT_RADIUS,
            upside_down: false,
            pitch: 0,
            yaw: 0,
        }),
        derive_transform_spec(default_position_state()) == (CameraTransform {
            x_axis: FxVec3 { x: FX_ONE, y: 0, z: 0 },
            y_axis: FxVec3 { x: 0, y: FX_ONE, z: 0 },
            z_axis: FxVec3 { x: 0, y: 0, z: FX_ONE },
            translation: FxVec3 { x: 0, y: 0, z: DEFAULT_RADIUS },
        }),
{
    crate::trig::lemma_trig_at_zero();
    crate::fx::lemma_fx_mul_zero(0);
    crate::fx::lemma_fx_mul_zero(FX_ONE as int);
    crate::fx::lemma_fx_mul_zero(DEFAULT_RADIUS as int);
    crate::mesh::lemma_fx_mul_by_axis(FX_ONE as int, FX_ONE as int);
    crate::mesh::lemma_fx_mul_by_axis(DEFAULT_RADIUS as int, FX_ONE as int);
    assert(fx_mul_spec(FX_ONE as int, DEFAULT_RADIUS as int) == fx_mul_spec(
        DEFAULT_RADIUS as int,
        FX_ONE as int,
    )) by (nonlinear_arith);
}

} // verus!
