use bevy::input::keyboard::KeyCode;
use bevy::input::ButtonInput;
use map_scene::keyboard::HeldInput;
use map_scene::navigation::{camera_controls, tick, Step, MAX_SCALE, MIN_SCALE_DIVISOR, PAN_SPEED};

const IDLE: HeldInput =
    HeldInput { up: false, down: false, left: false, right: false, zoom_in: false, zoom_out: false };

#[derive(Clone, Copy, Debug, PartialEq)]
struct View {
    x: f32,
    y: f32,
    scale: f32,
}

const START: View = View { x: 400.0, y: 300.0, scale: 1.0 };

fn apply_steps(view: View, steps: &[Step], dt: f32) -> View {
    let mut view = view;
    let distance = PAN_SPEED as f32 * dt;
    for step in steps {
        match step {
            Step::PanUp => view.y += distance,
            Step::PanDown => view.y -= distance,
            Step::PanLeft => view.x -= distance,
            Step::PanRight => view.x += distance,
            Step::ZoomIn => view.scale *= 1.0 + dt,
            Step::ZoomOut => view.scale *= 1.0 - dt,
            Step::ClampScale => {
                view.scale = view.scale.clamp(1.0 / MIN_SCALE_DIVISOR as f32, MAX_SCALE as f32)
            }
        }
    }
    view
}

fn ticked(view: View, cameras: usize, input: HeldInput, dt: f32) -> View {
    apply_steps(view, &tick(cameras, input), dt)
}

#[test]
fn navigation_constants() {
    assert_eq!(PAN_SPEED, 300);
    assert_eq!(MAX_SCALE, 4);
    assert_eq!(MIN_SCALE_DIVISOR, 4);
    assert_eq!(1.0 / MIN_SCALE_DIVISOR as f32, 0.25);
}

#[test]
fn idle_tick_only_clamps() {
    assert_eq!(tick(1, IDLE), vec![Step::ClampScale]);
}

#[test]
fn each_control_gives_its_step() {
    assert_eq!(tick(1, HeldInput { up: true, ..IDLE }), vec![Step::PanUp, Step::ClampScale]);
    assert_eq!(tick(1, HeldInput { down: true, ..IDLE }), vec![Step::PanDown, Step::ClampScale]);
    assert_eq!(tick(1, HeldInput { left: true, ..IDLE }), vec![Step::PanLeft, Step::ClampScale]);
    assert_eq!(tick(1, HeldInput { right: true, ..IDLE }), vec![Step::PanRight, Step::ClampScale]);
    assert_eq!(tick(1, HeldInput { zoom_in: true, ..IDLE }), vec![Step::ZoomIn, Step::ClampScale]);
    assert_eq!(tick(1, HeldInput { zoom_out: true, ..IDLE }), vec![Step::ZoomOut, Step::ClampScale]);
}

#[test]
fn steps_come_in_a_fixed_order() {
    let all = HeldInput { up: true, down: true, left: true, right: true, zoom_in: true, zoom_out: true };
    assert_eq!(
        tick(1, all),
        vec![
            Step::PanUp,
            Step::PanDown,
            Step::PanLeft,
            Step::PanRight,
            Step::ZoomIn,
            Step::ZoomOut,
            Step::ClampScale
        ]
    );
    assert_eq!(
        tick(1, HeldInput { up: true, left: true, ..IDLE }),
        vec![Step::PanUp, Step::PanLeft, Step::ClampScale]
    );
}

#[test]
fn no_camera_no_steps() {
    let all = HeldInput { up: true, down: true, left: true, right: true, zoom_in: true, zoom_out: true };
    assert_eq!(tick(0, all), Vec::<Step>::new());
    assert_eq!(tick(0, IDLE), Vec::<Step>::new());
    let view = View { x: 1.0, y: 2.0, scale: 9.0 };
    assert_eq!(ticked(view, 0, all, 0.5), view);
}

#[test]
fn several_cameras_no_steps() {
    let all = HeldInput { up: true, down: true, left: true, right: true, zoom_in: true, zoom_out: true };
    assert_eq!(tick(2, all), Vec::<Step>::new());
    assert_eq!(tick(3, IDLE), Vec::<Step>::new());
    assert_eq!(tick(usize::MAX, all), Vec::<Step>::new());
    let view = View { x: 1.0, y: 2.0, scale: 9.0 };
    assert_eq!(ticked(view, 2, all, 0.5), view);
}

#[test]
fn pan_up_and_left_is_the_vector_sum() {
    let input = HeldInput { up: true, left: true, ..IDLE };
    let after = ticked(START, 1, input, 0.5);
    assert_eq!(after, View { x: 400.0 - 150.0, y: 300.0 + 150.0, scale: 1.0 });
    let after = ticked(START, 1, input, 1.0);
    assert_eq!(after, View { x: 100.0, y: 600.0, scale: 1.0 });
}

#[test]
fn pan_along_one_axis() {
    assert_eq!(ticked(START, 1, HeldInput { up: true, ..IDLE }, 0.25).y, 375.0);
    assert_eq!(ticked(START, 1, HeldInput { down: true, ..IDLE }, 0.25).y, 225.0);
    assert_eq!(ticked(START, 1, HeldInput { left: true, ..IDLE }, 0.25).x, 325.0);
    assert_eq!(ticked(START, 1, HeldInput { right: true, ..IDLE }, 0.25).x, 475.0);
}

#[test]
fn opposite_directions_cancel() {
    let input = HeldInput { up: true, down: true, left: true, right: true, ..IDLE };
    assert_eq!(ticked(START, 1, input, 0.5), START);
}

#[test]
fn pan_with_zero_elapsed_time_stays() {
    let input = HeldInput { up: true, right: true, zoom_in: true, ..IDLE };
    assert_eq!(ticked(START, 1, input, 0.0), START);
}

#[test]
fn zoom_in_doubles_until_clamped() {
    let input = HeldInput { zoom_in: true, ..IDLE };
    let first = ticked(START, 1, input, 1.0);
    assert_eq!(first.scale, 2.0);
    let second = ticked(first, 1, input, 1.0);
    assert_eq!(second.scale, 4.0);
    let third = ticked(second, 1, input, 1.0);
    assert_eq!(third.scale, 4.0);
    let fourth = ticked(third, 1, input, 1.0);
    assert_eq!(fourth.scale, 4.0);
    assert_eq!((fourth.x, fourth.y), (START.x, START.y));
}

#[test]
fn zoom_in_is_exponential() {
    let input = HeldInput { zoom_in: true, ..IDLE };
    let first = ticked(START, 1, input, 0.5);
    assert_eq!(first.scale, 1.5);
    let second = ticked(first, 1, input, 0.5);
    assert_eq!(second.scale, 2.25);
}

#[test]
fn zoom_out_pins_at_a_quarter() {
    let input = HeldInput { zoom_out: true, ..IDLE };
    let view = View { scale: 0.3, ..START };
    assert_eq!(ticked(view, 1, input, 0.5).scale, 0.25);
    assert_eq!(ticked(view, 1, input, 1.0).scale, 0.25);
    assert_eq!(ticked(view, 1, input, 3.0).scale, 0.25);
    let pinned = ticked(view, 1, input, 0.5);
    assert_eq!(ticked(pinned, 1, input, 0.5).scale, 0.25);
}

#[test]
fn zoom_out_halves_within_range() {
    let input = HeldInput { zoom_out: true, ..IDLE };
    assert_eq!(ticked(START, 1, input, 0.5).scale, 0.5);
    assert_eq!(ticked(View { scale: 4.0, ..START }, 1, input, 0.25).scale, 3.0);
}

#[test]
fn zoom_in_and_out_together() {
    let input = HeldInput { zoom_in: true, zoom_out: true, ..IDLE };
    assert_eq!(ticked(START, 1, input, 0.5).scale, 0.75);
}

#[test]
fn clamp_runs_without_zoom_input() {
    assert_eq!(ticked(View { scale: 9.0, ..START }, 1, IDLE, 0.1).scale, 4.0);
    assert_eq!(ticked(View { scale: 0.1, ..START }, 1, IDLE, 0.1).scale, 0.25);
    let moved = ticked(View { scale: 9.0, ..START }, 1, HeldInput { up: true, ..IDLE }, 1.0);
    assert_eq!(moved, View { x: 400.0, y: 600.0, scale: 4.0 });
}

#[test]
fn idle_ticks_change_nothing() {
    let mut view = View { x: -12.5, y: 7.75, scale: 2.5 };
    let start = view;
    for dt in [0.0, 0.016, 0.5, 1.0, 30.0] {
        for _ in 0..10 {
            view = ticked(view, 1, IDLE, dt);
            assert_eq!(view, start);
        }
    }
    for scale in [0.25, 1.0, 4.0] {
        let at = View { scale, ..START };
        assert_eq!(ticked(at, 1, IDLE, 0.5), at);
    }
}

#[test]
fn tick_depends_on_input_alone() {
    let input = HeldInput { right: true, zoom_out: true, ..IDLE };
    assert_eq!(tick(1, input), tick(1, input));
    assert_eq!(ticked(START, 1, input, 0.25), ticked(START, 1, input, 0.25));
}

#[test]
fn camera_controls_reads_the_keyboard() {
    let mut keyboard = ButtonInput::<KeyCode>::default();
    assert_eq!(camera_controls(&keyboard, 1), vec![Step::ClampScale]);
    keyboard.press(KeyCode::KeyW);
    keyboard.press(KeyCode::ArrowLeft);
    assert_eq!(camera_controls(&keyboard, 1), vec![Step::PanUp, Step::PanLeft, Step::ClampScale]);
    assert_eq!(camera_controls(&keyboard, 0), Vec::<Step>::new());
    assert_eq!(camera_controls(&keyboard, 2), Vec::<Step>::new());
    keyboard.press(KeyCode::KeyE);
    keyboard.release(KeyCode::KeyW);
    assert_eq!(camera_controls(&keyboard, 1), vec![Step::PanLeft, Step::ZoomOut, Step::ClampScale]);
}

#[test]
fn camera_controls_moves_the_view() {
    let mut keyboard = ButtonInput::<KeyCode>::default();
    keyboard.press(KeyCode::ArrowUp);
    keyboard.press(KeyCode::KeyA);
    keyboard.press(KeyCode::KeyQ);
    let after = apply_steps(START, &camera_controls(&keyboard, 1), 0.5);
    assert_eq!(after, View { x: 250.0, y: 450.0, scale: 1.5 });
}
