use skycam::input::{HeldKeys, Key, MoveAxes};

fn held(keys: &[Key]) -> HeldKeys {
    let mut h = HeldKeys::new();
    for k in keys {
        h.press(*k);
    }
    h
}

#[test]
fn no_keys_means_no_motion() {
    let h = HeldKeys::new();
    let axes = h.movement_axes();
    assert_eq!(axes, MoveAxes { forward: 0, right: 0, up: 0 });
    assert!(axes.is_still());
}

#[test]
fn forward_and_backward_cancel() {
    let axes = held(&[Key::W, Key::S]).movement_axes();
    assert_eq!(axes.forward, 0);
    assert!(axes.is_still());
}

#[test]
fn forward_backward_cancel_keeps_strafe() {
    let axes = held(&[Key::W, Key::S, Key::D]).movement_axes();
    assert_eq!(axes, MoveAxes { forward: 0, right: 1, up: 0 });
    assert!(!axes.is_still());
}

#[test]
fn each_key_moves_along_its_axis() {
    assert_eq!(held(&[Key::W]).movement_axes(), MoveAxes { forward: 1, right: 0, up: 0 });
    assert_eq!(held(&[Key::S]).movement_axes(), MoveAxes { forward: -1, right: 0, up: 0 });
    assert_eq!(held(&[Key::D]).movement_axes(), MoveAxes { forward: 0, right: 1, up: 0 });
    assert_eq!(held(&[Key::A]).movement_axes(), MoveAxes { forward: 0, right: -1, up: 0 });
    assert_eq!(held(&[Key::Space]).movement_axes(), MoveAxes { forward: 0, right: 0, up: 1 });
    assert_eq!(
        held(&[Key::ControlLeft]).movement_axes(),
        MoveAxes { forward: 0, right: 0, up: -1 }
    );
}

#[test]
fn all_movement_keys_cancel() {
    let axes = held(&[Key::W, Key::A, Key::S, Key::D, Key::Space, Key::ControlLeft])
        .movement_axes();
    assert!(axes.is_still());
}

#[test]
fn toggle_keys_do_not_move() {
    let axes = held(&[Key::Escape, Key::F2]).movement_axes();
    assert!(axes.is_still());
}

#[test]
fn release_forgets_key() {
    let mut h = held(&[Key::W, Key::D]);
    assert!(h.is_held(Key::W));
    h.release(Key::W);
    assert!(!h.is_held(Key::W));
    assert!(h.is_held(Key::D));
    assert_eq!(h.movement_axes(), MoveAxes { forward: 0, right: 1, up: 0 });
}

#[test]
fn pressing_twice_then_releasing_once_releases() {
    let mut h = held(&[Key::Space, Key::Space]);
    h.release(Key::Space);
    assert!(!h.is_held(Key::Space));
    assert!(h.movement_axes().is_still());
}
