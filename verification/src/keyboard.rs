//! The keys that steer the camera, and how they are read from a keyboard.

use bevy::input::keyboard::KeyCode;
use bevy::input::ButtonInput;
use vstd::prelude::*;

verus! {

/// A key that has a navigation binding.
#[derive(Clone, Copy, Debug, PartialEq, Eq, Structural)]
pub enum Key {
    W,
    S,
    A,
    D,
    ArrowUp,
    ArrowDown,
    ArrowLeft,
    ArrowRight,
    Q,
    E,
}

/// What a key asks of the viewport.
#[derive(Clone, Copy, Debug, PartialEq, Eq, Structural)]
pub enum Control {
    Up,
    Down,
    Left,
    Right,
    ZoomIn,
    ZoomOut,
}

/// The fixed binding of each key.
pub open spec fn binding(key: Key) -> Control {
    match key {
        Key::W | Key::ArrowUp => Control::Up,
        Key::S | Key::ArrowDown => Control::Down,
        Key::A | Key::ArrowLeft => Control::Left,
        Key::D | Key::ArrowRight => Control::Right,
        Key::Q => Control::ZoomIn,
        Key::E => Control::ZoomOut,
    }
}

impl Key {
    /// The control this key is bound to.
    pub fn control(self) -> (control: Control)
        ensures
            control == binding(self),
    {
        match self {
            Key::W | Key::ArrowUp => Control::Up,
            Key::S | Key::ArrowDown => Control::Down,
            Key::A | Key::ArrowLeft => Control::Left,
            Key::D | Key::ArrowRight => Control::Right,
            Key::Q => Control::ZoomIn,
            Key::E => Control::ZoomOut,
        }
    }
}

/// The controls held during one frame: an unordered set, one flag per control.
#[derive(Clone, Copy, Debug, PartialEq, Eq, Structural)]
pub struct HeldInput {
    pub up: bool,
    pub down: bool,
    pub left: bool,
    pub right: bool,
    pub zoom_in: bool,
    pub zoom_out: bool,
}

/// Whether some key of `keys` is bound to `control`.
pub open spec fn any_bound(keys: Set<Key>, control: Control) -> bool {
    exists|key: Key| keys.contains(key) && #[trigger] binding(key) == control
}

/// The controls that a set of held keys asks for.
pub open spec fn held_from(keys: Set<Key>) -> HeldInput {
    HeldInput {
        up: any_bound(keys, Control::Up),
        down: any_bound(keys, Control::Down),
        left: any_bound(keys, Control::Left),
        right: any_bound(keys, Control::Right),
        zoom_in: any_bound(keys, Control::ZoomIn),
        zoom_out: any_bound(keys, Control::ZoomOut),
    }
}

impl HeldInput {
    /// Whether `control` is held.
    pub open spec fn holds(self, control: Control) -> bool {
        match control {
            Control::Up => self.up,
            Control::Down => self.down,
            Control::Left => self.left,
            Control::Right => self.right,
            Control::ZoomIn => self.zoom_in,
            Control::ZoomOut => self.zoom_out,
        }
    }

    /// Whether nothing is held.
    pub open spec fn is_idle(self) -> bool {
        !self.up && !self.down && !self.left && !self.right && !self.zoom_in && !self.zoom_out
    }

    /// The input with nothing held.
    pub fn none() -> (input: HeldInput)
        ensures
            input.is_idle(),
    {
        HeldInput {
            up: false,
            down: false,
            left: false,
            right: false,
            zoom_in: false,
            zoom_out: false,
        }
    }

    /// This input with `control` held as well.
    pub fn with(self, control: Control) -> (input: HeldInput)
        ensures
            forall|c: Control| input.holds(c) == (c == control || self.holds(c)),
    {
        let mut input = self;
        match control {
            Control::Up => input.up = true,
            Control::Down => input.down = true,
            Control::Left => input.left = true,
            Control::Right => input.right = true,
            Control::ZoomIn => input.zoom_in = true,
            Control::ZoomOut => input.zoom_out = true,
        }
        input
    }

    /// The controls asked for by a list of held keys. Order and repetition
    /// of the keys do not matter.
    pub fn from_keys(keys: &Vec<Key>) -> (input: HeldInput)
        ensures
            input == held_from(keys@.to_set()),
    {
        let mut input = HeldInput::none();
        for i in 0..keys.len()
            invariant
                forall|c: Control|
                    input.holds(c) == exists|j: int|
                        0 <= j < i && binding(#[trigger] keys[j]) == c,
        {
            input = input.with(keys[i].control());
        }
        proof {
            let held = keys@.to_set();
            assert forall|c: Control| input.holds(c) == any_bound(held, c) by {
                if input.holds(c) {
                    let j = choose|j: int| 0 <= j < keys.len() && binding(#[trigger] keys[j]) == c;
                    assert(held.contains(keys[j]));
                }
                if any_bound(held, c) {
                    let key = choose|key: Key| held.contains(key) && #[trigger] binding(key) == c;
                    let j = choose|j: int| 0 <= j < keys.len() && keys[j] == key;
                    assert(binding(keys[j]) == c);
                }
            }
            assert(input.holds(Control::Up) == any_bound(held, Control::Up));
            assert(input.holds(Control::Down) == any_bound(held, Control::Down));
            assert(input.holds(Control::Left) == any_bound(held, Control::Left));
            assert(input.holds(Control::Right) == any_bound(held, Control::Right));
            assert(input.holds(Control::ZoomIn) == any_bound(held, Control::ZoomIn));
            assert(input.holds(Control::ZoomOut) == any_bound(held, Control::ZoomOut));
        }
        input
    }
}

/// bevy's `KeyCode`, the code of a physical key. Nothing is known of its
/// values here.
#[verifier::external_type_specification]
#[verifier::external_body]
pub struct ExKeyCode(KeyCode);

/// bevy's `ButtonInput`, which holds the set of buttons that are pressed.
/// Nothing is known of its fields here.
#[verifier::external_type_specification]
#[verifier::external_body]
#[verifier::reject_recursive_types(T)]
pub struct ExButtonInput<T: Clone + Eq + core::hash::Hash + Send + Sync + 'static>(ButtonInput<T>);

/// What a keyboard holds, as far as navigation reads it: those of the bound
/// keys whose key code is in the keyboard's set of pressed buttons.
pub uninterp spec fn pressed_keys(keyboard: ButtonInput<KeyCode>) -> Set<Key>;

/// Calls `ButtonInput::pressed` with the key code of `key`: whether the
/// keyboard's set of pressed buttons holds that code. Nothing is claimed of
/// which keys a keyboard holds, only that asking is a lookup in that set.
#[verifier::external_body]
fn is_pressed(keyboard: &ButtonInput<KeyCode>, key: Key) -> (held: bool)
    ensures
        held == pressed_keys(*keyboard).contains(key),
{
    keyboard.pressed(match key {
        Key::W => KeyCode::KeyW,
        Key::S => KeyCode::KeyS,
        Key::A => KeyCode::KeyA,
        Key::D => KeyCode::KeyD,
        Key::ArrowUp => KeyCode::ArrowUp,
        Key::ArrowDown => KeyCode::ArrowDown,
        Key::ArrowLeft => KeyCode::ArrowLeft,
        Key::ArrowRight => KeyCode::ArrowRight,
        Key::Q => KeyCode::KeyQ,
        Key::E => KeyCode::KeyE,
    })
}

/// Reads the held controls off a keyboard.
pub fn held_input(keyboard: &ButtonInput<KeyCode>) -> (input: HeldInput)
    ensures
        input == held_from(pressed_keys(*keyboard)),
{
    let input = HeldInput {
        up: is_pressed(keyboard, Key::W) || is_pressed(keyboard, Key::ArrowUp),
        down: is_pressed(keyboard, Key::S) || is_pressed(keyboard, Key::ArrowDown),
        left: is_pressed(keyboard, Key::A) || is_pressed(keyboard, Key::ArrowLeft),
        right: is_pressed(keyboard, Key::D) || is_pressed(keyboard, Key::ArrowRight),
        zoom_in: is_pressed(keyboard, Key::Q),
        zoom_out: is_pressed(keyboard, Key::E),
    };
    proof {
        lemma_held_from(pressed_keys(*keyboard));
    }
    input
}

/// The binding table, key by key: a control is held exactly when one of its
/// keys is.
pub proof fn lemma_held_from(keys: Set<Key>)
    ensures
        held_from(keys).up == (keys.contains(Key::W) || keys.contains(Key::ArrowUp)),
        held_from(keys).down == (keys.contains(Key::S) || keys.contains(Key::ArrowDown)),
        held_from(keys).left == (keys.contains(Key::A) || keys.contains(Key::ArrowLeft)),
        held_from(keys).right == (keys.contains(Key::D) || keys.contains(Key::ArrowRight)),
        held_from(keys).zoom_in == keys.contains(Key::Q),
        held_from(keys).zoom_out == keys.contains(Key::E),
{
    assert(binding(Key::W) == Control::Up);
    assert(binding(Key::ArrowUp) == Control::Up);
    assert(binding(Key::S) == Control::Down);
    assert(binding(Key::ArrowDown) == Control::Down);
    assert(binding(Key::A) == Control::Left);
    assert(binding(Key::ArrowLeft) == Control::Left);
    assert(binding(Key::D) == Control::Right);
    assert(binding(Key::ArrowRight) == Control::Right);
    assert(binding(Key::Q) == Control::ZoomIn);
    assert(binding(Key::E) == Control::ZoomOut);
}

} // verus!
