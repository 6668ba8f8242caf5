use planet_controller::collision::{
    character_contact, velocity_correction, BodyKind, CharacterContact, ContactBodies,
    VelocityCorrection,
};
use planet_controller::movement::{respond, MovementEvent, MovementResponse};

#[test]
fn grounded_reversal_turns_around_and_opens_window() {
    let mut window = false;
    let r = respond(true, &mut window, MovementEvent::Move { reverses: true });
    assert_eq!(r, MovementResponse::TurnAround);
    assert!(window);
}

#[test]
fn turn_around_then_jump_is_a_backflip() {
    let mut window = false;
    respond(true, &mut window, MovementEvent::Move { reverses: true });
    assert_eq!(respond(true, &mut window, MovementEvent::Jump), MovementResponse::Backflip);
}

#[test]
fn plain_jump_outside_window() {
    let mut window = false;
    assert_eq!(respond(true, &mut window, MovementEvent::Jump), MovementResponse::Jump);
    assert!(!window);
}

#[test]
fn airborne_ignores_jump_and_accelerates_weakly() {
    let mut window = true;
    assert_eq!(respond(false, &mut window, MovementEvent::Jump), MovementResponse::Ignore);
    assert_eq!(
        respond(false, &mut window, MovementEvent::Move { reverses: true }),
        MovementResponse::Accelerate { airborne: true }
    );
    assert!(window);
    let mut closed = false;
    respond(false, &mut closed, MovementEvent::Move { reverses: true });
    assert!(!closed);
}

#[test]
fn grounded_forward_move_accelerates() {
    let mut window = false;
    assert_eq!(
        respond(true, &mut window, MovementEvent::Move { reverses: false }),
        MovementResponse::Accelerate { airborne: false }
    );
    assert!(!window);
}

#[test]
fn body_kinds() {
    assert!(BodyKind::Dynamic.is_dynamic());
    assert!(!BodyKind::Dynamic.is_kinematic());
    assert!(BodyKind::Static.is_static());
    assert!(BodyKind::Kinematic.is_kinematic());
    assert!(!BodyKind::Kinematic.is_dynamic());
}

fn bodies(a: bool, b: bool, ka: Option<BodyKind>, kb: Option<BodyKind>) -> ContactBodies {
    ContactBodies { first_is_character: a, second_is_character: b, first_kind: ka, second_kind: kb }
}

#[test]
fn character_is_found_on_either_side() {
    assert_eq!(
        character_contact(&bodies(true, false, Some(BodyKind::Kinematic), Some(BodyKind::Static))),
        Some(CharacterContact { is_first: true, other_is_dynamic: false })
    );
    assert_eq!(
        character_contact(&bodies(false, true, Some(BodyKind::Dynamic), Some(BodyKind::Kinematic))),
        Some(CharacterContact { is_first: false, other_is_dynamic: true })
    );
}

#[test]
fn first_character_is_preferred() {
    assert_eq!(
        character_contact(&bodies(true, true, Some(BodyKind::Kinematic), Some(BodyKind::Kinematic))),
        Some(CharacterContact { is_first: true, other_is_dynamic: false })
    );
    // The first body is a character but not kinematic: the pair is skipped,
    // even though the second is a kinematic character.
    assert_eq!(
        character_contact(&bodies(true, true, Some(BodyKind::Dynamic), Some(BodyKind::Kinematic))),
        None
    );
}

#[test]
fn non_kinematic_or_no_character_skipped() {
    assert_eq!(character_contact(&bodies(false, false, Some(BodyKind::Kinematic), None)), None);
    assert_eq!(
        character_contact(&bodies(true, false, Some(BodyKind::Dynamic), Some(BodyKind::Static))),
        None
    );
    assert_eq!(
        character_contact(&bodies(false, true, None, Some(BodyKind::Static))),
        None
    );
}

#[test]
fn other_without_rigid_body_is_not_dynamic() {
    assert_eq!(
        character_contact(&bodies(true, false, Some(BodyKind::Kinematic), None)),
        Some(CharacterContact { is_first: true, other_is_dynamic: false })
    );
}

#[test]
fn velocity_corrections() {
    assert_eq!(velocity_correction(true, true, false), VelocityCorrection::Keep);
    assert_eq!(velocity_correction(true, false, false), VelocityCorrection::Keep);
    assert_eq!(velocity_correction(false, true, true), VelocityCorrection::Keep);
    assert_eq!(velocity_correction(false, false, true), VelocityCorrection::Keep);
    assert_eq!(velocity_correction(false, true, false), VelocityCorrection::Slide);
    assert_eq!(velocity_correction(false, false, false), VelocityCorrection::CancelApproach);
}
