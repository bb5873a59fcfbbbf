use learn_opengl::camera::CameraMovement;
use learn_opengl::input::{keyboard_actions, KeyStates};

fn keys(escape: bool, w: bool, s: bool, a: bool, d: bool) -> KeyStates {
    KeyStates { escape, w, s, a, d }
}

#[test]
fn no_keys_no_actions() {
    let r = keyboard_actions(keys(false, false, false, false, false));
    assert!(!r.close);
    assert!(r.movements.is_empty());
}

#[test]
fn escape_closes() {
    let r = keyboard_actions(keys(true, false, false, false, false));
    assert!(r.close);
    assert!(r.movements.is_empty());
}

#[test]
fn all_movement_keys_in_order() {
    let r = keyboard_actions(keys(false, true, true, true, true));
    assert!(!r.close);
    assert_eq!(
        r.movements,
        vec![CameraMovement::Forward, CameraMovement::Backward, CameraMovement::Left, CameraMovement::Right]
    );
}

#[test]
fn forward_and_strafe_right() {
    let r = keyboard_actions(keys(true, true, false, false, true));
    assert!(r.close);
    assert_eq!(r.movements, vec![CameraMovement::Forward, CameraMovement::Right]);
}

#[test]
fn single_key_each() {
    assert_eq!(keyboard_actions(keys(false, false, true, false, false)).movements, vec![CameraMovement::Backward]);
    assert_eq!(keyboard_actions(keys(false, false, false, true, false)).movements, vec![CameraMovement::Left]);
}
