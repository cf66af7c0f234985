//! The player's movement decisions for one frame: whether it jumps, which way
//! it walks, whether a move is free of walls, and whether it stands on ground.
//! The distances and speeds themselves are computed in floating point by the
//! game, outside this crate.

use vstd::prelude::*;

verus! {

/// What the player tries to do in a frame.
#[derive(Clone, Copy, Debug, PartialEq, Eq, Structural)]
pub struct MoveIntent {
    /// Whether the jump velocity is added this frame.
    pub jump: bool,
    /// -1 to walk left, 1 to walk right, 0 to stand.
    pub direction: i8,
}

/// The player's state after its vertical move was tried.
#[derive(Clone, Copy, Debug, PartialEq, Eq, Structural)]
pub struct VerticalOutcome {
    /// Whether the player stands on something.
    pub grounded: bool,
    /// Whether its vertical velocity is reset to zero.
    pub stop_vertical: bool,
}

/// The walking direction for the keys held: left counts -1, right counts 1.
pub open spec fn direction_spec(left_pressed: bool, right_pressed: bool) -> int {
    (if right_pressed { 1int } else { 0int }) - (if left_pressed { 1int } else { 0int })
}

/// What the player tries in a frame: it jumps when it stands on ground and the
/// jump key was just pressed; it walks left, right, or not at all when both or
/// neither key is held.
pub open spec fn movement_intent_spec(grounded: bool, jump_just_pressed: bool, left_pressed: bool, right_pressed: bool) -> MoveIntent {
    MoveIntent {
        jump: grounded && jump_just_pressed,
        direction: direction_spec(left_pressed, right_pressed) as i8,
    }
}

/// A vertical move that went through leaves the player in the air; one that a
/// wall blocked leaves it standing, with its vertical speed reset.
pub open spec fn vertical_outcome_spec(moved: bool) -> VerticalOutcome {
    VerticalOutcome { grounded: !moved, stop_vertical: !moved }
}

/// Decides what the player tries this frame.
pub fn movement_intent(grounded: bool, jump_just_pressed: bool, left_pressed: bool, right_pressed: bool) -> (intent: MoveIntent)
    ensures
        intent == movement_intent_spec(grounded, jump_just_pressed, left_pressed, right_pressed),
{
    let mut direction: i8 = 0;
    if left_pressed {
        direction = direction - 1;
    }
    if right_pressed {
        direction = direction + 1;
    }
    MoveIntent { jump: grounded && jump_just_pressed, direction }
}

/// Decides whether the player stands on ground after its vertical move was tried.
pub fn vertical_outcome(moved: bool) -> (outcome: VerticalOutcome)
    ensures
        outcome == vertical_outcome_spec(moved),
{
    if moved {
        VerticalOutcome { grounded: false, stop_vertical: false }
    } else {
        VerticalOutcome { grounded: true, stop_vertical: true }
    }
}

/// Whether the player may move to a position, given for each wall whether
/// the player's box there would overlap it: only if it overlaps none.
pub fn wall_collision_check(collisions: &Vec<bool>) -> (free: bool)
    ensures
        free == (forall|i: int| 0 <= i < collisions@.len() ==> !#[trigger] collisions@[i]),
{
    for i in 0..collisions.len()
        invariant
            forall|j: int| 0 <= j < i ==> !#[trigger] collisions@[j],
    {
        if collisions[i] {
            return false;
        }
    }
    true
}

/// The player can jump in the frame after one in which a wall stopped its
/// vertical move, and cannot in the frame after one in which it moved freely.
pub proof fn lemma_jump_needs_ground(moved: bool, left_pressed: bool, right_pressed: bool)
    ensures
        movement_intent_spec(vertical_outcome_spec(moved).grounded, true, left_pressed, right_pressed).jump
            == !moved,
{
}

/// Holding both walking keys, or neither, makes the player stand still; the
/// direction is always one of -1, 0, 1.
pub proof fn lemma_direction_cancels(left_pressed: bool, right_pressed: bool)
    ensures
        left_pressed == right_pressed ==> direction_spec(left_pressed, right_pressed) == 0,
        -1 <= direction_spec(left_pressed, right_pressed) <= 1,
{
}

/// The player jumps exactly when it stands on ground and the jump key was just
/// pressed, whatever walking keys are held; it walks left when only the left
/// key is held, right when only the right key is held, and not at all otherwise.
pub proof fn lemma_movement_intent_law(grounded: bool, jump_just_pressed: bool, left_pressed: bool, right_pressed: bool)
    ensures
        movement_intent_spec(grounded, jump_just_pressed, left_pressed, right_pressed).jump
            == (grounded && jump_just_pressed),
        left_pressed && !right_pressed ==> movement_intent_spec(
            grounded,
            jump_just_pressed,
            left_pressed,
            right_pressed,
        ).direction == -1,
        right_pressed && !left_pressed ==> movement_intent_spec(
            grounded,
            jump_just_pressed,
            left_pressed,
            right_pressed,
        ).direction == 1,
        left_pressed == right_pressed ==> movement_intent_spec(
            grounded,
            jump_just_pressed,
            left_pressed,
            right_pressed,
        ).direction == 0,
{
}

/// A vertical move that went through leaves the player in the air with its
/// speed; one that a wall blocked leaves it standing with its speed reset.
pub proof fn lemma_vertical_outcome_law(moved: bool)
    ensures
        vertical_outcome_spec(moved).grounded == !moved,
        vertical_outcome_spec(moved).stop_vertical == !moved,
{
}

} // verus!
