//! The camera navigation controller: one tick, from held input to the steps
//! that move the viewport.

use crate::keyboard::{held_from, held_input, pressed_keys, HeldInput};
use bevy::input::keyboard::KeyCode;
use bevy::input::ButtonInput;
use vstd::prelude::*;

verus! {

/// World units per second that one held direction moves the viewport.
pub const PAN_SPEED: u32 = 300;

/// The largest scale the viewport may have.
pub const MAX_SCALE: u32 = 4;

/// The smallest scale the viewport may have is one over this.
pub const MIN_SCALE_DIVISOR: u32 = 4;

/// One change to the viewport. With `d` the pan distance of the tick
/// (`PAN_SPEED` times the elapsed seconds) and `dt` the elapsed seconds:
#[derive(Clone, Copy, Debug, PartialEq, Eq, Structural)]
pub enum Step {
    /// `y += d`
    PanUp,
    /// `y -= d`
    PanDown,
    /// `x -= d`
    PanLeft,
    /// `x += d`
    PanRight,
    /// `scale *= 1 + dt`
    ZoomIn,
    /// `scale *= 1 - dt`
    ZoomOut,
    /// `scale` is brought into `[1 / MIN_SCALE_DIVISOR, MAX_SCALE]`
    ClampScale,
}

/// The steps of one tick, in the order in which they apply: nothing unless
/// there is exactly one camera; else one pan step per held direction, one
/// zoom step per held zoom control, and the clamp, always.
pub open spec fn tick_steps(cameras: int, input: HeldInput) -> Seq<Step> {
    if cameras != 1 {
        Seq::empty()
    } else {
        (if input.up { seq![Step::PanUp] } else { Seq::empty() })
        + (if input.down { seq![Step::PanDown] } else { Seq::empty() })
        + (if input.left { seq![Step::PanLeft] } else { Seq::empty() })
        + (if input.right { seq![Step::PanRight] } else { Seq::empty() })
        + (if input.zoom_in { seq![Step::ZoomIn] } else { Seq::empty() })
        + (if input.zoom_out { seq![Step::ZoomOut] } else { Seq::empty() })
        + seq![Step::ClampScale]
    }
}

/// One tick of the controller: the steps to apply to the viewport, given how
/// many cameras there are and what is held. The steps depend on nothing else.
pub fn tick(cameras: usize, input: HeldInput) -> (steps: Vec<Step>)
    ensures
        steps@ == tick_steps(cameras as int, input),
        cameras != 1 ==> steps@.len() == 0,
{
    let mut steps: Vec<Step> = Vec::new();
    if cameras != 1 {
        return steps;
    }
    if input.up {
        steps.push(Step::PanUp);
    }
    if input.down {
        steps.push(Step::PanDown);
    }
    if input.left {
        steps.push(Step::PanLeft);
    }
    if input.right {
        steps.push(Step::PanRight);
    }
    if input.zoom_in {
        steps.push(Step::ZoomIn);
    }
    if input.zoom_out {
        steps.push(Step::ZoomOut);
    }
    steps.push(Step::ClampScale);
    steps
}

/// One tick, read off the keyboard: the held controls are taken from
/// `keyboard`, then `tick` decides.
pub fn camera_controls(keyboard: &ButtonInput<KeyCode>, cameras: usize) -> (steps: Vec<Step>)
    ensures
        steps@ == tick_steps(cameras as int, held_from(pressed_keys(*keyboard))),
        cameras != 1 ==> steps@.len() == 0,
{
    tick(cameras, held_input(keyboard))
}

/// The viewport as exact numbers: a position in the world and a scale.
/// Callers that compute in machine numbers follow this up to rounding.
pub struct ViewportState {
    pub x: real,
    pub y: real,
    pub scale: real,
}

/// The smallest scale, one quarter.
pub open spec fn min_scale() -> real {
    1real / (MIN_SCALE_DIVISOR as real)
}

/// The largest scale, four.
pub open spec fn max_scale() -> real {
    MAX_SCALE as real
}

/// How far one held direction moves the viewport in `dt` seconds.
pub open spec fn pan_distance(dt: real) -> real {
    (PAN_SPEED as real) * dt
}

/// `scale`, or the nearer bound where it lies outside the allowed range.
pub open spec fn clamp_scale(scale: real) -> real {
    if scale < min_scale() {
        min_scale()
    } else if scale > max_scale() {
        max_scale()
    } else {
        scale
    }
}

impl ViewportState {
    /// The scale lies within its bounds.
    pub open spec fn valid(self) -> bool {
        min_scale() <= self.scale <= max_scale()
    }

    /// The viewport after one step of a tick that lasts `dt` seconds.
    pub open spec fn apply(self, step: Step, dt: real) -> ViewportState {
        match step {
            Step::PanUp => ViewportState { y: self.y + pan_distance(dt), ..self },
            Step::PanDown => ViewportState { y: self.y - pan_distance(dt), ..self },
            Step::PanLeft => ViewportState { x: self.x - pan_distance(dt), ..self },
            Step::PanRight => ViewportState { x: self.x + pan_distance(dt), ..self },
            Step::ZoomIn => ViewportState { scale: self.scale * (1real + dt), ..self },
            Step::ZoomOut => ViewportState { scale: self.scale * (1real - dt), ..self },
            Step::ClampScale => ViewportState { scale: clamp_scale(self.scale), ..self },
        }
    }

    /// The viewport after `steps`, applied first to last.
    pub open spec fn run(self, steps: Seq<Step>, dt: real) -> ViewportState
        decreases steps.len(),
    {
        if steps.len() == 0 {
            self
        } else {
            self.run(steps.drop_last(), dt).apply(steps.last(), dt)
        }
    }

    /// The viewport after one tick of `dt` seconds: unchanged unless there
    /// is exactly one camera; else each held direction adds or subtracts the
    /// pan distance on its own axis, each held zoom control multiplies the
    /// scale, and the scale is clamped.
    pub open spec fn ticked(self, cameras: int, input: HeldInput, dt: real) -> ViewportState {
        if cameras != 1 {
            self
        } else {
            let d = pan_distance(dt);
            ViewportState {
                x: self.x - (if input.left { d } else { 0real }) + (if input.right { d } else { 0real }),
                y: self.y + (if input.up { d } else { 0real }) - (if input.down { d } else { 0real }),
                scale: clamp_scale(
                    self.scale * (if input.zoom_in { 1real + dt } else { 1real }) * (if input.zoom_out {
                        1real - dt
                    } else {
                        1real
                    }),
                ),
            }
        }
    }

    /// The viewport after one tick for each entry of `dts`, with the same
    /// cameras and input throughout.
    pub open spec fn ticked_all(self, cameras: int, input: HeldInput, dts: Seq<real>) -> ViewportState
        decreases dts.len(),
    {
        if dts.len() == 0 {
            self
        } else {
            self.ticked_all(cameras, input, dts.drop_last()).ticked(cameras, input, dts.last())
        }
    }
}

/// The bounds as numbers: a quarter and four.
pub proof fn lemma_scale_bounds()
    ensures
        min_scale() * 4real == 1real,
        max_scale() == 4real,
        0real < min_scale() < 1real < max_scale(),
{
    assert(MIN_SCALE_DIVISOR as real == 4real);
    assert(MAX_SCALE as real == 4real);
}

proof fn lemma_run_optional(v: ViewportState, before: Seq<Step>, held: bool, step: Step, dt: real)
    ensures
        v.run(before + (if held { seq![step] } else { Seq::empty() }), dt) == if held {
            v.run(before, dt).apply(step, dt)
        } else {
            v.run(before, dt)
        },
{
    if held {
        let all = before + seq![step];
        assert(all.drop_last() =~= before);
        assert(all.last() == step);
    } else {
        assert(before + Seq::<Step>::empty() =~= before);
    }
}

/// Applying the steps of a tick one after the other gives the viewport that
/// `ticked` describes.
pub proof fn lemma_steps_give_tick(v: ViewportState, cameras: int, input: HeldInput, dt: real)
    ensures
        v.run(tick_steps(cameras, input), dt) == v.ticked(cameras, input, dt),
{
    if cameras == 1 {
        let s0 = Seq::<Step>::empty();
        let s1 = s0 + (if input.up { seq![Step::PanUp] } else { Seq::empty() });
        let s2 = s1 + (if input.down { seq![Step::PanDown] } else { Seq::empty() });
        let s3 = s2 + (if input.left { seq![Step::PanLeft] } else { Seq::empty() });
        let s4 = s3 + (if input.right { seq![Step::PanRight] } else { Seq::empty() });
        let s5 = s4 + (if input.zoom_in { seq![Step::ZoomIn] } else { Seq::empty() });
        let s6 = s5 + (if input.zoom_out { seq![Step::ZoomOut] } else { Seq::empty() });
        let s7 = s6 + seq![Step::ClampScale];
        assert(s1 =~= (if input.up { seq![Step::PanUp] } else { Seq::empty() }));
        assert(s7 == tick_steps(cameras, input));
        lemma_run_optional(v, s0, input.up, Step::PanUp, dt);
        lemma_run_optional(v, s1, input.down, Step::PanDown, dt);
        lemma_run_optional(v, s2, input.left, Step::PanLeft, dt);
        lemma_run_optional(v, s3, input.right, Step::PanRight, dt);
        lemma_run_optional(v, s4, input.zoom_in, Step::ZoomIn, dt);
        lemma_run_optional(v, s5, input.zoom_out, Step::ZoomOut, dt);
        lemma_run_optional(v, s6, true, Step::ClampScale, dt);
        let zoomed = v.run(s6, dt).scale;
        let factor_in = if input.zoom_in { 1real + dt } else { 1real };
        let factor_out = if input.zoom_out { 1real - dt } else { 1real };
        assert(zoomed == v.scale * factor_in * factor_out) by (nonlinear_arith)
            requires
                zoomed == (if input.zoom_out {
                    (if input.zoom_in { v.scale * (1real + dt) } else { v.scale }) * (1real - dt)
                } else {
                    (if input.zoom_in { v.scale * (1real + dt) } else { v.scale })
                }),
                factor_in == (if input.zoom_in { 1real + dt } else { 1real }),
                factor_out == (if input.zoom_out { 1real - dt } else { 1real }),
        ;
    }
}

/// Pan is additive, axis by axis: with up and left held, and neither down
/// nor right, a tick moves the viewport left by the pan distance and up by
/// the pan distance, both in full. Nothing is normalised.
pub proof fn lemma_pan_additive(v: ViewportState, input: HeldInput, dt: real)
    requires
        input.up && input.left,
        !input.down && !input.right,
    ensures
        v.ticked(1, input, dt).x == v.x - (PAN_SPEED as real) * dt,
        v.ticked(1, input, dt).y == v.y + (PAN_SPEED as real) * dt,
        v.run(tick_steps(1, input), dt).x == v.x - (PAN_SPEED as real) * dt,
        v.run(tick_steps(1, input), dt).y == v.y + (PAN_SPEED as real) * dt,
{
    lemma_steps_give_tick(v, 1, input, dt);
}

/// Opposite directions cancel: with both held, the axis does not move.
pub proof fn lemma_opposite_pans_cancel(v: ViewportState, input: HeldInput, dt: real)
    ensures
        input.left && input.right ==> v.ticked(1, input, dt).x == v.x,
        input.up && input.down ==> v.ticked(1, input, dt).y == v.y,
{
}

/// Zooming in grows the scale by the factor `1 + dt`, up to the bound: from
/// a valid scale below the maximum a tick of positive length gives a strictly
/// larger scale, never above the maximum, and from the maximum it gives the
/// maximum again.
pub proof fn lemma_zoom_in_grows_until_clamped(v: ViewportState, input: HeldInput, dt: real)
    requires
        v.valid(),
        input.zoom_in && !input.zoom_out,
        dt > 0real,
    ensures
        v.ticked(1, input, dt).scale == if v.scale * (1real + dt) > max_scale() {
            max_scale()
        } else {
            v.scale * (1real + dt)
        },
        v.scale < max_scale() ==> v.ticked(1, input, dt).scale > v.scale,
        v.scale == max_scale() ==> v.ticked(1, input, dt).scale == max_scale(),
        v.ticked(1, input, dt).scale <= max_scale(),
{
    lemma_scale_bounds();
    let s = v.scale;
    assert(s * (1real + dt) * 1real == s * (1real + dt)) by (nonlinear_arith);
    assert(s * (1real + dt) > s) by (nonlinear_arith)
        requires
            s > 0real,
            dt > 0real,
    ;
}

/// Zooming out cannot pass the lower bound: where the scale times `1 - dt`
/// falls below the minimum, the tick leaves the scale at exactly the minimum.
pub proof fn lemma_zoom_out_pins_at_minimum(v: ViewportState, input: HeldInput, dt: real)
    requires
        input.zoom_out && !input.zoom_in,
        v.scale * (1real - dt) < min_scale(),
    ensures
        v.ticked(1, input, dt).scale == min_scale(),
{
    let s = v.scale;
    assert(s * 1real * (1real - dt) == s * (1real - dt)) by (nonlinear_arith);
}

/// With nothing held, a tick leaves a valid viewport as it is.
pub proof fn lemma_idle_tick_changes_nothing(v: ViewportState, cameras: int, dt: real)
    requires
        v.valid(),
    ensures
        forall|input: HeldInput| input.is_idle() ==> #[trigger] v.ticked(cameras, input, dt) == v,
{
    assert forall|input: HeldInput| input.is_idle() implies #[trigger] v.ticked(
        cameras,
        input,
        dt,
    ) == v by {
        assert(v.scale * 1real * 1real == v.scale) by (nonlinear_arith);
    }
}

/// With nothing held, any number of ticks, of whatever lengths, leaves a
/// valid viewport as it is.
pub proof fn lemma_idle_ticks_change_nothing(
    v: ViewportState,
    cameras: int,
    input: HeldInput,
    dts: Seq<real>,
)
    requires
        v.valid(),
        input.is_idle(),
    ensures
        v.ticked_all(cameras, input, dts) == v,
    decreases dts.len(),
{
    if dts.len() > 0 {
        lemma_idle_ticks_change_nothing(v, cameras, input, dts.drop_last());
        lemma_idle_tick_changes_nothing(v, cameras, dts.last());
    }
}

/// Without exactly one camera a tick has no steps and changes nothing.
pub proof fn lemma_one_camera_or_nothing(v: ViewportState, cameras: int, input: HeldInput, dt: real)
    requires
        cameras != 1,
    ensures
        tick_steps(cameras, input).len() == 0,
        v.run(tick_steps(cameras, input), dt) == v,
        v.ticked(cameras, input, dt) == v,
{
}

/// The scale stays within its bounds: after a tick with one camera it is
/// valid whatever it was, and a tick never makes a valid viewport invalid.
pub proof fn lemma_tick_keeps_scale_in_range(
    v: ViewportState,
    cameras: int,
    input: HeldInput,
    dt: real,
)
    ensures
        cameras == 1 ==> v.ticked(cameras, input, dt).valid(),
        v.valid() ==> v.ticked(cameras, input, dt).valid(),
{
    lemma_scale_bounds();
}

} // verus!
