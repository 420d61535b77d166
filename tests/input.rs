use pts4d::input::{respond, Axis, InputAction, InputEvent, Key};

#[test]
fn quit_and_escape_stop() {
    assert_eq!(respond(InputEvent::Quit), InputAction::Stop);
    assert_eq!(respond(InputEvent::KeyDown(Key::Escape)), InputAction::Stop);
    assert!(!InputAction::Stop.moves_camera());
}

#[test]
fn wasd_step_along_ground_axes() {
    assert_eq!(
        respond(InputEvent::KeyDown(Key::W)),
        InputAction::Step { axis: Axis::Z, towards_positive: false }
    );
    assert_eq!(
        respond(InputEvent::KeyDown(Key::S)),
        InputAction::Step { axis: Axis::Z, towards_positive: true }
    );
    assert_eq!(
        respond(InputEvent::KeyDown(Key::A)),
        InputAction::Step { axis: Axis::X, towards_positive: true }
    );
    assert_eq!(
        respond(InputEvent::KeyDown(Key::D)),
        InputAction::Step { axis: Axis::X, towards_positive: false }
    );
    assert!(respond(InputEvent::KeyDown(Key::W)).moves_camera());
}

#[test]
fn wheel_lifts_camera() {
    assert_eq!(respond(InputEvent::Wheel), InputAction::Lift);
    assert!(InputAction::Lift.moves_camera());
}

#[test]
fn other_input_is_ignored() {
    assert_eq!(respond(InputEvent::Other), InputAction::Ignore);
    assert_eq!(respond(InputEvent::KeyDown(Key::Other)), InputAction::Ignore);
    assert!(!InputAction::Ignore.moves_camera());
}
