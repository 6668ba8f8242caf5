use vstd::prelude::*;

verus! {

/// The value of one keyboard axis: `+1` when only the positive key is held,
/// `-1` when only the negative key is held, `0` when neither or both are.
pub open spec fn key_axis(positive: bool, negative: bool) -> int {
    (if positive { 1int } else { 0int }) - (if negative { 1int } else { 0int })
}

/// What the keyboard asks of the character in one frame.
#[derive(Clone, Copy, Debug, PartialEq, Eq, Structural)]
pub struct KeyboardIntent {
    /// `+1` right, `-1` left, `0` none.
    pub horizontal: i8,
    /// `+1` forward, `-1` backward, `0` none.
    pub vertical: i8,
    /// The jump key went down this frame.
    pub jump: bool,
}

fn axis(positive: bool, negative: bool) -> (v: i8)
    ensures
        v == key_axis(positive, negative),
{
    let p: i8 = if positive { 1 } else { 0 };
    let n: i8 = if negative { 1 } else { 0 };
    p - n
}

/// Turns the held movement keys (W/Up, S/Down, A/Left, D/Right) and the jump
/// key into a movement intent. Opposite keys cancel each other.
pub fn keyboard_intent(
    up: bool,
    down: bool,
    left: bool,
    right: bool,
    jump_just_pressed: bool,
) -> (intent: KeyboardIntent)
    ensures
        intent.horizontal == key_axis(right, left),
        intent.vertical == key_axis(up, down),
        intent.jump == jump_just_pressed,
{
    KeyboardIntent {
        horizontal: axis(right, left),
        vertical: axis(up, down),
        jump: jump_just_pressed,
    }
}

impl KeyboardIntent {
    /// A move is sent only when the keys give a direction other than zero
    /// (the direction is then scaled to a length of at most one).
    pub fn sends_move(&self) -> (b: bool)
        ensures
            b == (self.horizontal != 0 || self.vertical != 0),
    {
        self.horizontal != 0 || self.vertical != 0
    }
}

/// What one gamepad asks of the character in one frame.
#[derive(Clone, Copy, Debug, PartialEq, Eq, Structural)]
pub struct GamepadIntent {
    /// A move is sent, along the left stick (even when the stick rests at
    /// zero).
    pub sends_move: bool,
    /// The south button went down this frame.
    pub jump: bool,
}

/// A gamepad sends a move whenever it reports both axes of its left stick,
/// then a jump when its south button was just pressed.
pub fn gamepad_intent(has_stick_x: bool, has_stick_y: bool, south_just_pressed: bool) -> (intent:
    GamepadIntent)
    ensures
        intent.sends_move == (has_stick_x && has_stick_y),
        intent.jump == south_just_pressed,
{
    GamepadIntent { sends_move: has_stick_x && has_stick_y, jump: south_just_pressed }
}

/// Holding two opposite keys is the same as holding neither.
pub proof fn lemma_opposite_keys_cancel(held: bool)
    ensures
        key_axis(held, held) == 0,
{
}

/// A keyboard axis is `+1` exactly when only its positive key is held, `-1`
/// exactly when only its negative key is held, and `0` otherwise.
pub proof fn lemma_key_axis_values(positive: bool, negative: bool)
    ensures
        key_axis(positive, negative) == 1 <==> positive && !negative,
        key_axis(positive, negative) == -1 <==> !positive && negative,
        key_axis(positive, negative) == 0 <==> positive == negative,
{
}

} // verus!
