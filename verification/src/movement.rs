use vstd::prelude::*;

verus! {

/// A movement event as seen by the character controller.
#[derive(Clone, Copy, Debug, PartialEq, Eq, Structural)]
pub enum MovementEvent {
    /// A move input. `reverses` holds when the input direction points against
    /// the character's horizontal velocity: the cosine between them, in the
    /// character's own frame, is below `-0.25`.
    Move { reverses: bool },
    /// A jump input.
    Jump,
}

/// How the controller answers one movement event.
#[derive(Clone, Copy, Debug, PartialEq, Eq, Structural)]
pub enum MovementResponse {
    /// Turn around on the spot: keep the horizontal speed, take the input
    /// direction, and restart the turn-around window.
    TurnAround,
    /// Accelerate along the input direction; in the air the acceleration is
    /// a tenth of the ground acceleration.
    Accelerate { airborne: bool },
    /// Add the jump impulse to the upward velocity.
    Jump,
    /// Add one and a half times the jump impulse: a side flip right after a
    /// turn-around.
    Backflip,
    /// Do nothing.
    Ignore,
}

/// The answer to `event` for a character that is or is not grounded and
/// whose turn-around window is or is not still open (less than 0.2 s since
/// the last turn-around).
pub open spec fn response_to(is_grounded: bool, window_open: bool, event: MovementEvent) -> MovementResponse {
    match event {
        MovementEvent::Move { reverses } => {
            if is_grounded && reverses {
                MovementResponse::TurnAround
            } else {
                MovementResponse::Accelerate { airborne: !is_grounded }
            }
        },
        MovementEvent::Jump => {
            if !is_grounded {
                MovementResponse::Ignore
            } else if window_open {
                MovementResponse::Backflip
            } else {
                MovementResponse::Jump
            }
        },
    }
}

/// Whether the turn-around window is open after answering `event`: a
/// turn-around restarts it, anything else leaves it as it was.
pub open spec fn window_after(is_grounded: bool, window_open: bool, event: MovementEvent) -> bool {
    window_open || response_to(is_grounded, window_open, event) == MovementResponse::TurnAround
}

/// Answers one movement event and updates the turn-around window.
///
/// The events of a frame are answered in order with the grounded status of
/// that frame; the window state carries from one event to the next.
pub fn respond(is_grounded: bool, window_open: &mut bool, event: MovementEvent) -> (response:
    MovementResponse)
    ensures
        response == response_to(is_grounded, *old(window_open), event),
        *final(window_open) == window_after(is_grounded, *old(window_open), event),
{
    match event {
        MovementEvent::Move { reverses } => {
            if is_grounded && reverses {
                *window_open = true;
                MovementResponse::TurnAround
            } else {
                MovementResponse::Accelerate { airborne: !is_grounded }
            }
        },
        MovementEvent::Jump => {
            if !is_grounded {
                MovementResponse::Ignore
            } else if *window_open {
                MovementResponse::Backflip
            } else {
                MovementResponse::Jump
            }
        },
    }
}

/// A character in the air neither jumps nor turns around.
pub proof fn lemma_airborne_never_jumps(window_open: bool, event: MovementEvent)
    ensures
        response_to(false, window_open, event) != MovementResponse::Jump,
        response_to(false, window_open, event) != MovementResponse::Backflip,
        response_to(false, window_open, event) != MovementResponse::TurnAround,
{
}

/// A grounded jump right after a turn-around in the same frame is a side flip.
pub proof fn lemma_turn_around_then_jump_flips(window_open: bool)
    ensures
        response_to(true, window_open, MovementEvent::Move { reverses: true })
            == MovementResponse::TurnAround,
        response_to(
            true,
            window_after(true, window_open, MovementEvent::Move { reverses: true }),
            MovementEvent::Jump,
        ) == MovementResponse::Backflip,
{
}

/// Within a frame the turn-around window never closes.
pub proof fn lemma_window_stays_open(is_grounded: bool, event: MovementEvent)
    ensures
        window_after(is_grounded, true, event),
{
}

/// Answers to a move: a grounded character that reverses turns around and
/// its window opens; otherwise it accelerates, with the reduced air
/// acceleration exactly when it is not grounded, and its window stays as it
/// was. This holds for every window state.
pub proof fn lemma_move_answers(is_grounded: bool, window_open: bool, reverses: bool)
    ensures
        ({
            let event = MovementEvent::Move { reverses };
            let response = response_to(is_grounded, window_open, event);
            &&& is_grounded && reverses ==> response == MovementResponse::TurnAround
                && window_after(is_grounded, window_open, event)
            &&& !is_grounded ==> response == (MovementResponse::Accelerate { airborne: true })
            &&& is_grounded && !reverses ==> response == (MovementResponse::Accelerate {
                airborne: false,
            })
            &&& (response matches MovementResponse::Accelerate { airborne } ==> airborne
                == !is_grounded)
            &&& !(is_grounded && reverses) ==> window_after(is_grounded, window_open, event)
                == window_open
        }),
{
}

/// Answers to a jump: none in the air; a side flip when grounded with the
/// window open; a plain jump when grounded with the window closed. A jump
/// never changes the window.
pub proof fn lemma_jump_answers(is_grounded: bool, window_open: bool)
    ensures
        !is_grounded ==> response_to(is_grounded, window_open, MovementEvent::Jump)
            == MovementResponse::Ignore,
        is_grounded && window_open ==> response_to(is_grounded, window_open, MovementEvent::Jump)
            == MovementResponse::Backflip,
        is_grounded && !window_open ==> response_to(is_grounded, window_open, MovementEvent::Jump)
            == MovementResponse::Jump,
        window_after(is_grounded, window_open, MovementEvent::Jump) == window_open,
{
}

} // verus!
