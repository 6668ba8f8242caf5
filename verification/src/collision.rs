use vstd::prelude::*;

verus! {

/// How a rigid body takes part in the physics simulation.
#[derive(Clone, Copy, Debug, PartialEq, Eq, Structural)]
pub enum BodyKind {
    /// Moved by forces, velocity and collisions.
    Dynamic,
    /// Never moved by the simulation.
    Static,
    /// Moved by its own velocity only; collisions do not push it.
    Kinematic,
}

impl BodyKind {
    pub fn is_dynamic(&self) -> (b: bool)
        ensures
            b == (*self == BodyKind::Dynamic),
    {
        match self {
            BodyKind::Dynamic => true,
            _ => false,
        }
    }

    pub fn is_static(&self) -> (b: bool)
        ensures
            b == (*self == BodyKind::Static),
    {
        match self {
            BodyKind::Static => true,
            _ => false,
        }
    }

    pub fn is_kinematic(&self) -> (b: bool)
        ensures
            b == (*self == BodyKind::Kinematic),
    {
        match self {
            BodyKind::Kinematic => true,
            _ => false,
        }
    }
}

/// The two rigid bodies behind the colliders of one contact pair.
#[derive(Clone, Copy, Debug, PartialEq, Eq, Structural)]
pub struct ContactBodies {
    /// The first body carries a character controller.
    pub first_is_character: bool,
    /// The second body carries a character controller.
    pub second_is_character: bool,
    /// The kind of the first body, if it has one.
    pub first_kind: Option<BodyKind>,
    /// The kind of the second body, if it has one.
    pub second_kind: Option<BodyKind>,
}

/// A contact pair that the kinematic character controller has to resolve.
#[derive(Clone, Copy, Debug, PartialEq, Eq, Structural)]
pub struct CharacterContact {
    /// The character is the first body of the pair, so the contact normals
    /// (which point from the first body to the second) are to be negated.
    pub is_first: bool,
    /// The other body is dynamic: only the penetration is resolved, not the
    /// velocity.
    pub other_is_dynamic: bool,
}

/// The contact that the controller resolves for `bodies`: the character is
/// the first body when that one is a character, else the second; the pair is
/// skipped when neither is a character or the character is not kinematic.
pub open spec fn character_contact_of(bodies: ContactBodies) -> Option<CharacterContact> {
    if bodies.first_is_character {
        if bodies.first_kind == Some(BodyKind::Kinematic) {
            Some(
                CharacterContact {
                    is_first: true,
                    other_is_dynamic: bodies.second_kind == Some(BodyKind::Dynamic),
                },
            )
        } else {
            None
        }
    } else if bodies.second_is_character {
        if bodies.second_kind == Some(BodyKind::Kinematic) {
            Some(
                CharacterContact {
                    is_first: false,
                    other_is_dynamic: bodies.first_kind == Some(BodyKind::Dynamic),
                },
            )
        } else {
            None
        }
    } else {
        None
    }
}

/// Decides whether, and from which side, a contact pair is resolved for a
/// kinematic character controller.
///
/// A character controller is always a rigid body, so a body marked as a
/// character has a kind.
pub fn character_contact(bodies: &ContactBodies) -> (contact: Option<CharacterContact>)
    requires
        bodies.first_is_character ==> bodies.first_kind is Some,
        bodies.second_is_character ==> bodies.second_kind is Some,
    ensures
        contact == character_contact_of(*bodies),
{
    let (is_first, character_kind, other_kind) = if bodies.first_is_character {
        (true, bodies.first_kind, bodies.second_kind)
    } else if bodies.second_is_character {
        (false, bodies.second_kind, bodies.first_kind)
    } else {
        return None;
    };
    let character_kind = match character_kind {
        Some(kind) => kind,
        None => { return None; },
    };
    if !character_kind.is_kinematic() {
        return None;
    }
    let other_is_dynamic = match other_kind {
        Some(kind) => kind.is_dynamic(),
        None => false,
    };
    Some(CharacterContact { is_first, other_is_dynamic })
}

/// How the character's velocity is corrected for one contact manifold.
#[derive(Clone, Copy, Debug, PartialEq, Eq, Structural)]
pub enum VelocityCorrection {
    /// Leave the velocity as it is.
    Keep,
    /// Remove the velocity component along the contact normal, sliding along
    /// the surface.
    Slide,
    /// Remove the part of the approach speed that would make the character
    /// penetrate the surface within the next frame (a speculative contact).
    CancelApproach,
}

/// The velocity correction for a manifold whose deepest contact is or is not
/// penetrating, for a character that is or is not moving away from the
/// surface (positive velocity along the normal).
pub open spec fn velocity_correction_of(
    other_is_dynamic: bool,
    penetrating: bool,
    moving_away: bool,
) -> VelocityCorrection {
    if other_is_dynamic || moving_away {
        VelocityCorrection::Keep
    } else if penetrating {
        VelocityCorrection::Slide
    } else {
        VelocityCorrection::CancelApproach
    }
}

/// Chooses the velocity correction of one contact manifold. Only contacts
/// with non-dynamic bodies correct the velocity, and never while the
/// character moves away from the surface.
pub fn velocity_correction(other_is_dynamic: bool, penetrating: bool, moving_away: bool) -> (c:
    VelocityCorrection)
    ensures
        c == velocity_correction_of(other_is_dynamic, penetrating, moving_away),
{
    if other_is_dynamic {
        VelocityCorrection::Keep
    } else if penetrating {
        if moving_away {
            VelocityCorrection::Keep
        } else {
            VelocityCorrection::Slide
        }
    } else {
        if moving_away {
            VelocityCorrection::Keep
        } else {
            VelocityCorrection::CancelApproach
        }
    }
}

/// Only kinematic character controllers are resolved, and the side chosen is
/// that of a character.
pub proof fn lemma_only_kinematic_characters(bodies: ContactBodies)
    requires
        character_contact_of(bodies) is Some,
    ensures
        character_contact_of(bodies)->0.is_first ==> bodies.first_is_character && bodies.first_kind
            == Some(BodyKind::Kinematic),
        !character_contact_of(bodies)->0.is_first ==> bodies.second_is_character
            && bodies.second_kind == Some(BodyKind::Kinematic),
{
}

/// Swapping the two bodies of a pair in which only one is a character gives
/// the same resolution seen from the other side.
pub proof fn lemma_contact_symmetric(bodies: ContactBodies)
    requires
        bodies.first_is_character != bodies.second_is_character,
    ensures
        ({
            let swapped = ContactBodies {
                first_is_character: bodies.second_is_character,
                second_is_character: bodies.first_is_character,
                first_kind: bodies.second_kind,
                second_kind: bodies.first_kind,
            };
            match (character_contact_of(bodies), character_contact_of(swapped)) {
                (Some(a), Some(b)) => a.is_first == !b.is_first && a.other_is_dynamic
                    == b.other_is_dynamic,
                (None, None) => true,
                _ => false,
            }
        }),
{
}

/// Contacts with dynamic bodies never correct the velocity, nor do contacts
/// the character moves away from; otherwise a penetrating contact slides
/// and a speculative one cancels the approach.
pub proof fn lemma_velocity_correction_cases(other_is_dynamic: bool, penetrating: bool, moving_away: bool)
    ensures
        other_is_dynamic ==> velocity_correction_of(other_is_dynamic, penetrating, moving_away)
            == VelocityCorrection::Keep,
        moving_away ==> velocity_correction_of(other_is_dynamic, penetrating, moving_away)
            == VelocityCorrection::Keep,
        !other_is_dynamic && !moving_away && penetrating ==> velocity_correction_of(
            other_is_dynamic,
            penetrating,
            moving_away,
        ) == VelocityCorrection::Slide,
        !other_is_dynamic && !moving_away && !penetrating ==> velocity_correction_of(
            other_is_dynamic,
            penetrating,
            moving_away,
        ) == VelocityCorrection::CancelApproach,
{
}

/// Which pair is resolved: a kinematic character as the first body is
/// resolved from the first side, and the other body counts as dynamic
/// exactly when it is a dynamic rigid body; a non-character first body
/// hands the decision to the second; no character, or a first character
/// that is not kinematic, means no resolution.
pub proof fn lemma_character_contact_cases(bodies: ContactBodies)
    ensures
        bodies.first_is_character && bodies.first_kind == Some(BodyKind::Kinematic)
            ==> character_contact_of(bodies) == Some(
            CharacterContact {
                is_first: true,
                other_is_dynamic: bodies.second_kind == Some(BodyKind::Dynamic),
            },
        ),
        bodies.first_is_character && bodies.first_kind != Some(BodyKind::Kinematic)
            ==> character_contact_of(bodies) is None,
        !bodies.first_is_character && bodies.second_is_character && bodies.second_kind == Some(
            BodyKind::Kinematic,
        ) ==> character_contact_of(bodies) == Some(
            CharacterContact {
                is_first: false,
                other_is_dynamic: bodies.first_kind == Some(BodyKind::Dynamic),
            },
        ),
        !bodies.first_is_character && !(bodies.second_is_character && bodies.second_kind == Some(
            BodyKind::Kinematic,
        )) ==> character_contact_of(bodies) is None,
{
}

} // verus!
