//! The keyboard side of the camera controller: which way each axis of
//! motion is pushed.

use vstd::prelude::*;

verus! {

/// The keys the renderer tells apart.
#[derive(Clone, Copy, Debug, PartialEq, Eq, Structural)]
pub enum VirtualKeyCode {
    W,
    S,
    A,
    D,
    E,
    Q,
    Up,
    Down,
    Left,
    Right,
    LShift,
    Escape,
    /// Any other key.
    Other,
}

/// Whether a key or button went down or up.
#[derive(Clone, Copy, Debug, PartialEq, Eq, Structural)]
pub enum ElementState {
    Pressed,
    Released,
}

/// How far each axis is pushed: 1 one way, -1 the other, 0 at rest.
#[derive(Clone, Copy, Debug, PartialEq, Eq, Structural)]
pub struct CameraController {
    keyboard_horizontal: i8,
    keyboard_forward: i8,
    keyboard_vertical: i8,
    keyboard_yaw: i8,
    keyboard_pitch: i8,
    keyboard_shift_down: bool,
}

/// A controller as a mathematical value.
pub ghost struct ControllerView {
    pub horizontal: int,
    pub forward: int,
    pub vertical: int,
    pub yaw: int,
    pub pitch: int,
    pub shift_down: bool,
}

/// Whether the controller takes the key.
pub open spec fn is_bound(key: VirtualKeyCode) -> bool {
    key != VirtualKeyCode::Escape && key != VirtualKeyCode::Other
}

/// The controller after a key went down or up. A key that goes down pushes
/// its axis its way; a key that goes up lets its axis go, whatever the key
/// for the other way is doing.
pub open spec fn after_key(
    before: ControllerView,
    key: VirtualKeyCode,
    state: ElementState,
) -> ControllerView {
    let amount: int = if state == ElementState::Pressed {
        1
    } else {
        0
    };
    match key {
        VirtualKeyCode::W => ControllerView { forward: amount, ..before },
        VirtualKeyCode::S => ControllerView { forward: -amount, ..before },
        VirtualKeyCode::A => ControllerView { horizontal: -amount, ..before },
        VirtualKeyCode::D => ControllerView { horizontal: amount, ..before },
        VirtualKeyCode::E => ControllerView { vertical: amount, ..before },
        VirtualKeyCode::Q => ControllerView { vertical: -amount, ..before },
        VirtualKeyCode::Up => ControllerView { pitch: amount, ..before },
        VirtualKeyCode::Down => ControllerView { pitch: -amount, ..before },
        VirtualKeyCode::Left => ControllerView { yaw: amount, ..before },
        VirtualKeyCode::Right => ControllerView { yaw: -amount, ..before },
        VirtualKeyCode::LShift => ControllerView {
            shift_down: state == ElementState::Pressed,
            ..before
        },
        VirtualKeyCode::Escape => before,
        VirtualKeyCode::Other => before,
    }
}

impl View for CameraController {
    type V = ControllerView;

    closed spec fn view(&self) -> ControllerView {
        ControllerView {
            horizontal: self.keyboard_horizontal as int,
            forward: self.keyboard_forward as int,
            vertical: self.keyboard_vertical as int,
            yaw: self.keyboard_yaw as int,
            pitch: self.keyboard_pitch as int,
            shift_down: self.keyboard_shift_down,
        }
    }
}

impl CameraController {
    /// A controller with every axis at rest.
    pub fn new() -> (controller: Self)
        ensures
            controller@ == (ControllerView {
                horizontal: 0,
                forward: 0,
                vertical: 0,
                yaw: 0,
                pitch: 0,
                shift_down: false,
            }),
    {
        CameraController {
            keyboard_horizontal: 0,
            keyboard_forward: 0,
            keyboard_vertical: 0,
            keyboard_yaw: 0,
            keyboard_pitch: 0,
            keyboard_shift_down: false,
        }
    }

    /// Takes a key going down or up. Says whether the key is one of the
    /// controller's.
    pub fn process_keyboard(&mut self, key: VirtualKeyCode, state: ElementState) -> (taken: bool)
        ensures
            taken == is_bound(key),
            final(self)@ == after_key(old(self)@, key, state),
    {
        let (amount, pressed): (i8, bool) = match state {
            ElementState::Pressed => (1, true),
            ElementState::Released => (0, false),
        };
        match key {
            VirtualKeyCode::W => {
                self.keyboard_forward = amount;
                true
            },
            VirtualKeyCode::S => {
                self.keyboard_forward = -amount;
                true
            },
            VirtualKeyCode::A => {
                self.keyboard_horizontal = -amount;
                true
            },
            VirtualKeyCode::D => {
                self.keyboard_horizontal = amount;
                true
            },
            VirtualKeyCode::E => {
                self.keyboard_vertical = amount;
                true
            },
            VirtualKeyCode::Q => {
                self.keyboard_vertical = -amount;
                true
            },
            VirtualKeyCode::Up => {
                self.keyboard_pitch = amount;
                true
            },
            VirtualKeyCode::Down => {
                self.keyboard_pitch = -amount;
                true
            },
            VirtualKeyCode::Left => {
                self.keyboard_yaw = amount;
                true
            },
            VirtualKeyCode::Right => {
                self.keyboard_yaw = -amount;
                true
            },
            VirtualKeyCode::LShift => {
                self.keyboard_shift_down = pressed;
                true
            },
            _ => false,
        }
    }

    /// How far the sideways axis is pushed: 1 to the right, -1 to the left.
    pub fn horizontal(&self) -> (amount: i8)
        ensures
            amount == self@.horizontal,
    {
        self.keyboard_horizontal
    }

    /// How far the forward axis is pushed: 1 forward, -1 backward.
    pub fn forward(&self) -> (amount: i8)
        ensures
            amount == self@.forward,
    {
        self.keyboard_forward
    }

    /// How far the vertical axis is pushed: 1 up, -1 down.
    pub fn vertical(&self) -> (amount: i8)
        ensures
            amount == self@.vertical,
    {
        self.keyboard_vertical
    }

    /// How far the yaw axis is pushed: 1 to the left, -1 to the right.
    pub fn yaw(&self) -> (amount: i8)
        ensures
            amount == self@.yaw,
    {
        self.keyboard_yaw
    }

    /// How far the pitch axis is pushed: 1 up, -1 down.
    pub fn pitch(&self) -> (amount: i8)
        ensures
            amount == self@.pitch,
    {
        self.keyboard_pitch
    }

    /// By how much motion is sped up: three times while shift is down.
    pub fn speed_factor(&self) -> (factor: u8)
        ensures
            factor == (if self@.shift_down {
                3u8
            } else {
                1u8
            }),
    {
        if self.keyboard_shift_down {
            3
        } else {
            1
        }
    }
}

} // verus!
