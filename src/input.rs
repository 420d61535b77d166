use vstd::prelude::*;

verus! {

/// The keys the viewer reacts to.
#[derive(Clone, Copy, Debug, PartialEq, Eq, Structural)]
pub enum Key {
    W,
    A,
    S,
    D,
    Escape,
    Other,
}

/// A user input event, as far as the viewer reads it.
#[derive(Clone, Copy, Debug, PartialEq, Eq, Structural)]
pub enum InputEvent {
    /// The window is being closed.
    Quit,
    KeyDown(Key),
    /// The mouse wheel turned; its amount is applied by the caller.
    Wheel,
    Other,
}

/// A world axis.
#[derive(Clone, Copy, Debug, PartialEq, Eq, Structural)]
pub enum Axis {
    X,
    Y,
    Z,
}

/// What the viewer does in response to an input event.
#[derive(Clone, Copy, Debug, PartialEq, Eq, Structural)]
pub enum InputAction {
    /// Leave the render loop.
    Stop,
    /// Move the camera's position and its target by one step along `axis`,
    /// forwards when `towards_positive`, else backwards.
    Step { axis: Axis, towards_positive: bool },
    /// Move the camera's position and its target along the vertical axis by
    /// the wheel's amount.
    Lift,
    /// Nothing changes.
    Ignore,
}

/// The response to each event: W and S move along the depth axis (W away
/// from the viewer, towards negative z), A and D along the horizontal axis
/// (A towards positive x), the wheel lifts the camera; closing the window or
/// Escape stops.
pub open spec fn response(event: InputEvent) -> InputAction {
    match event {
        InputEvent::Quit => InputAction::Stop,
        InputEvent::KeyDown(Key::Escape) => InputAction::Stop,
        InputEvent::KeyDown(Key::W) => InputAction::Step { axis: Axis::Z, towards_positive: false },
        InputEvent::KeyDown(Key::S) => InputAction::Step { axis: Axis::Z, towards_positive: true },
        InputEvent::KeyDown(Key::A) => InputAction::Step { axis: Axis::X, towards_positive: true },
        InputEvent::KeyDown(Key::D) => InputAction::Step { axis: Axis::X, towards_positive: false },
        InputEvent::Wheel => InputAction::Lift,
        _ => InputAction::Ignore,
    }
}

/// Decides how the viewer answers `event`.
pub fn respond(event: InputEvent) -> (action: InputAction)
    ensures
        action == response(event),
{
    match event {
        InputEvent::Quit => InputAction::Stop,
        InputEvent::KeyDown(key) => match key {
            Key::Escape => InputAction::Stop,
            Key::W => InputAction::Step { axis: Axis::Z, towards_positive: false },
            Key::S => InputAction::Step { axis: Axis::Z, towards_positive: true },
            Key::A => InputAction::Step { axis: Axis::X, towards_positive: true },
            Key::D => InputAction::Step { axis: Axis::X, towards_positive: false },
            Key::Other => InputAction::Ignore,
        },
        InputEvent::Wheel => InputAction::Lift,
        InputEvent::Other => InputAction::Ignore,
    }
}

impl InputAction {
    /// Whether the action moves the camera, so that the frames accumulated
    /// so far no longer show the scene and must be dropped.
    pub fn moves_camera(&self) -> (r: bool)
        ensures
            r == (*self is Step || *self is Lift),
    {
        match self {
            InputAction::Step { .. } => true,
            InputAction::Lift => true,
            _ => false,
        }
    }
}

} // verus!
