use engine::input::{Inputs, KeyStates, Steering};

fn keys(up: bool, down: bool, left: bool, right: bool, a: bool, d: bool) -> KeyStates {
    KeyStates { up, down, left, right, a, d }
}

#[test]
fn key_states_default_is_released() {
    assert_eq!(KeyStates::default(), keys(false, false, false, false, false, false));
}

#[test]
fn inputs_keep_keys_with_focus() {
    let k = keys(true, false, false, true, false, true);
    assert_eq!(Inputs::with_focus(true, k).keys, k);
}

#[test]
fn inputs_drop_keys_without_focus() {
    let k = keys(true, true, true, true, true, true);
    assert_eq!(Inputs::with_focus(false, k).keys, KeyStates::default());
}

#[test]
fn steering_follows_keys() {
    let s = keys(true, false, false, true, true, false).steering();
    assert_eq!(s, Steering { thrust_x: 1, thrust_y: -1, spin: -1 });
    let s = keys(false, true, true, false, false, true).steering();
    assert_eq!(s, Steering { thrust_x: -1, thrust_y: 1, spin: 1 });
}

#[test]
fn steering_opposite_keys_cancel() {
    let s = keys(true, true, true, true, true, true).steering();
    assert_eq!(s, Steering { thrust_x: 0, thrust_y: 0, spin: 0 });
    let s = KeyStates::default().steering();
    assert_eq!(s, Steering { thrust_x: 0, thrust_y: 0, spin: 0 });
}
