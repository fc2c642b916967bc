use perseus::keys::{is_held, Key, KeyboardMoveable};
use perseus::movement::{axis, keyboard_velocity, move_delta, velocity_for, MoveSpeed, Velocity};

fn left() -> KeyboardMoveable {
    KeyboardMoveable { up: Key::W, down: Key::S }
}

#[test]
fn held_keys_are_found() {
    let held = vec![Key::Up, Key::X];
    assert!(is_held(&held, Key::X));
    assert!(is_held(&held, Key::Up));
    assert!(!is_held(&held, Key::Down));
    assert!(!is_held(&Vec::new(), Key::W));
}

#[test]
fn axis_values() {
    assert_eq!(axis(false, false), 0);
    assert_eq!(axis(true, false), 1);
    assert_eq!(axis(false, true), -1);
    assert_eq!(axis(true, true), 0);
}

#[test]
fn move_delta_is_unit_or_zero() {
    assert_eq!(move_delta(true, false), (0, 1));
    assert_eq!(move_delta(false, true), (0, -1));
    assert_eq!(move_delta(false, false), (0, 0));
    assert_eq!(move_delta(true, true), (0, 0));
}

#[test]
fn no_key_held_gives_zero() {
    let held = vec![Key::Up, Key::Down, Key::X];
    assert_eq!(keyboard_velocity(left(), MoveSpeed(30), &held), Velocity { x: 0, y: 0 });
    assert_eq!(keyboard_velocity(left(), MoveSpeed(30), &Vec::new()), Velocity { x: 0, y: 0 });
}

#[test]
fn one_key_held_gives_full_speed() {
    assert_eq!(keyboard_velocity(left(), MoveSpeed(45), &vec![Key::W]), Velocity { x: 0, y: 45 });
    assert_eq!(
        keyboard_velocity(left(), MoveSpeed(45), &vec![Key::Space, Key::S]),
        Velocity { x: 0, y: -45 }
    );
}

#[test]
fn both_keys_cancel() {
    let both = keyboard_velocity(left(), MoveSpeed(30), &vec![Key::S, Key::W]);
    assert_eq!(both, Velocity { x: 0, y: 0 });
    assert_eq!(both, keyboard_velocity(left(), MoveSpeed(30), &Vec::new()));
}

#[test]
fn doubling_speed_doubles_velocity() {
    for (up, down) in [(false, false), (true, false), (false, true), (true, true)] {
        let v = velocity_for(up, down, MoveSpeed(30));
        let w = velocity_for(up, down, MoveSpeed(60));
        assert_eq!(w, Velocity { x: 2 * v.x, y: 2 * v.y });
    }
    assert_eq!(velocity_for(false, true, MoveSpeed(60)), Velocity { x: 0, y: -60 });
}

#[test]
fn speed_thirty_up_held() {
    assert_eq!(velocity_for(true, false, MoveSpeed(30)), Velocity { x: 0, y: 30 });
    assert_eq!(keyboard_velocity(left(), MoveSpeed(30), &vec![Key::W]), Velocity { x: 0, y: 30 });
}

#[test]
fn speed_hundred_both_held() {
    assert_eq!(velocity_for(true, true, MoveSpeed(100)), Velocity { x: 0, y: 0 });
}

#[test]
fn largest_speed_does_not_overflow() {
    assert_eq!(velocity_for(false, true, MoveSpeed(u32::MAX)), Velocity { x: 0, y: -(u32::MAX as i64) });
}
