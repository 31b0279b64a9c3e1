use ragdoll::movement::{axis, MoveIntent, MoveKeys};

fn keys() -> MoveKeys {
    MoveKeys { forward: false, back: false, left: false, right: false, rise: false, sink: false }
}

#[test]
fn axis_steps() {
    assert_eq!(axis(false, false), 0);
    assert_eq!(axis(false, true), 1);
    assert_eq!(axis(true, false), -1);
    assert_eq!(axis(true, true), 0);
}

#[test]
fn no_keys_is_still() {
    let m = MoveIntent::from_keys(&keys());
    assert_eq!(m, MoveIntent { vel_x: 0, vel_z: 0, lift: 0 });
    assert!(m.is_still());
}

#[test]
fn forward_is_negative_z() {
    let m = MoveIntent::from_keys(&MoveKeys { forward: true, ..keys() });
    assert_eq!(m, MoveIntent { vel_x: 0, vel_z: -1, lift: 0 });
    assert!(!m.is_still());
}

#[test]
fn back_and_right_and_rise() {
    let m = MoveIntent::from_keys(&MoveKeys { back: true, right: true, rise: true, ..keys() });
    assert_eq!(m, MoveIntent { vel_x: 1, vel_z: 1, lift: 1 });
}

#[test]
fn left_and_sink() {
    let m = MoveIntent::from_keys(&MoveKeys { left: true, sink: true, ..keys() });
    assert_eq!(m, MoveIntent { vel_x: -1, vel_z: 0, lift: -1 });
}

#[test]
fn opposite_keys_cancel() {
    let all = MoveKeys { forward: true, back: true, left: true, right: true, rise: true, sink: true };
    let m = MoveIntent::from_keys(&all);
    assert!(m.is_still());
}
