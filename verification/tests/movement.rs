use platformer::movement::{movement_intent, vertical_outcome, wall_collision_check, MoveIntent, VerticalOutcome};

#[test]
fn jump_only_from_ground() {
    assert!(movement_intent(true, true, false, false).jump);
    assert!(!movement_intent(false, true, false, false).jump);
    assert!(!movement_intent(true, false, false, false).jump);
}

#[test]
fn walking_direction() {
    assert_eq!(movement_intent(false, false, true, false), MoveIntent { jump: false, direction: -1 });
    assert_eq!(movement_intent(false, false, false, true), MoveIntent { jump: false, direction: 1 });
    assert_eq!(movement_intent(false, false, true, true).direction, 0);
    assert_eq!(movement_intent(false, false, false, false).direction, 0);
}

#[test]
fn blocked_fall_lands() {
    assert_eq!(vertical_outcome(false), VerticalOutcome { grounded: true, stop_vertical: true });
    assert_eq!(vertical_outcome(true), VerticalOutcome { grounded: false, stop_vertical: false });
    // landing lets the player jump next frame
    assert!(movement_intent(vertical_outcome(false).grounded, true, false, false).jump);
    assert!(!movement_intent(vertical_outcome(true).grounded, true, false, false).jump);
}

#[test]
fn collision_check() {
    assert!(wall_collision_check(&vec![]));
    assert!(wall_collision_check(&vec![false, false, false]));
    assert!(!wall_collision_check(&vec![false, true, false]));
    assert!(!wall_collision_check(&vec![true]));
}
