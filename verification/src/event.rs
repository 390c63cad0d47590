//! What the window system tells the renderer, cut down to what the
//! renderer tells apart.

use crate::camera_controller::{ElementState, VirtualKeyCode};
use crate::gpu_state::PhysicalSize;
use vstd::prelude::*;

verus! {

/// The mouse buttons.
#[derive(Clone, Copy, Debug, PartialEq, Eq, Structural)]
pub enum MouseButton {
    Left,
    Right,
    Middle,
    Other,
}

/// An event of the renderer's window.
#[derive(Clone, Copy, Debug, PartialEq, Eq, Structural)]
pub enum WindowEvent {
    /// The user asked to close the window.
    CloseRequested,
    /// A key went down or up. `key` is missing where the window system
    /// could not name the key.
    KeyboardInput { key: Option<VirtualKeyCode>, state: ElementState },
    /// The wheel was turned.
    MouseWheel,
    /// A mouse button went down or up.
    MouseInput { button: MouseButton, state: ElementState },
    /// The window has a new size.
    Resized(PhysicalSize),
    /// The window moved to a display of another scale and has a new size.
    ScaleFactorChanged(PhysicalSize),
    /// Anything else.
    Other,
}

/// What is left to do with an input after the scene looked at it. The
/// amounts of wheel and mouse motion are numbers that the caller holds.
#[derive(Clone, Copy, Debug, PartialEq, Eq, Structural)]
pub enum Forward {
    /// Nothing is left to do.
    Nothing,
    /// The wheel's turn goes to the camera's zoom.
    Scroll,
    /// The mouse's motion turns the camera.
    MouseMotion,
}

/// What the scene made of an input.
#[derive(Clone, Copy, Debug, PartialEq, Eq, Structural)]
pub struct InputOutcome {
    /// Whether the scene took the input, so that nobody else should.
    pub handled: bool,
    pub forward: Forward,
}

} // verus!
