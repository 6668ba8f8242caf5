use planet_controller::grounding::{grounded_change, GroundedChange};
use planet_controller::input::{gamepad_intent, keyboard_intent, GamepadIntent, KeyboardIntent};

#[test]
fn no_keys_no_move() {
    let intent = keyboard_intent(false, false, false, false, false);
    assert_eq!(intent, KeyboardIntent { horizontal: 0, vertical: 0, jump: false });
    assert!(!intent.sends_move());
}

#[test]
fn single_keys_give_unit_axes() {
    assert_eq!(keyboard_intent(true, false, false, false, false).vertical, 1);
    assert_eq!(keyboard_intent(false, true, false, false, false).vertical, -1);
    assert_eq!(keyboard_intent(false, false, true, false, false).horizontal, -1);
    assert_eq!(keyboard_intent(false, false, false, true, false).horizontal, 1);
    assert!(keyboard_intent(false, false, false, true, false).sends_move());
}

#[test]
fn opposite_keys_cancel() {
    let intent = keyboard_intent(true, true, true, true, false);
    assert_eq!((intent.horizontal, intent.vertical), (0, 0));
    assert!(!intent.sends_move());
    let intent = keyboard_intent(true, true, false, true, false);
    assert_eq!((intent.horizontal, intent.vertical), (1, 0));
    assert!(intent.sends_move());
}

#[test]
fn diagonal_keys() {
    let intent = keyboard_intent(true, false, true, false, false);
    assert_eq!((intent.horizontal, intent.vertical), (-1, 1));
}

#[test]
fn jump_is_independent_of_direction() {
    let intent = keyboard_intent(false, false, false, false, true);
    assert!(intent.jump);
    assert!(!intent.sends_move());
}

#[test]
fn no_hits_not_grounded() {
    assert_eq!(grounded_change(true, &vec![]), GroundedChange::Remove);
    assert_eq!(grounded_change(false, &vec![]), GroundedChange::Remove);
}

#[test]
fn any_hit_grounds_without_max_slope() {
    assert_eq!(grounded_change(false, &vec![false, false]), GroundedChange::Insert);
}

#[test]
fn steep_hits_do_not_ground() {
    assert_eq!(grounded_change(true, &vec![false, false]), GroundedChange::Remove);
    assert_eq!(grounded_change(true, &vec![false, true]), GroundedChange::Insert);
}

#[test]
fn gamepad_moves_only_with_both_axes() {
    assert_eq!(gamepad_intent(true, true, false), GamepadIntent { sends_move: true, jump: false });
    assert_eq!(gamepad_intent(true, false, false), GamepadIntent { sends_move: false, jump: false });
    assert_eq!(gamepad_intent(false, true, true), GamepadIntent { sends_move: false, jump: true });
    assert_eq!(gamepad_intent(false, false, true).jump, true);
}
