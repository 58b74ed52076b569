use picorex::sprites::{Trex, TrexState, GRAVITY, TREX_GROUND_Y, TREX_MIN_Y, TREX_VELOCITY, TREX_X};

#[test]
fn jump_arc_sequence() {
    // From the ground, a jump climbs strictly to the top of the arc, falls
    // strictly back, and ends running on the ground.
    let mut t = Trex::new(TREX_X, TREX_GROUND_Y);
    assert_eq!(t.state, TrexState::Running);
    t.state = TrexState::Jumping;

    t.update_state();
    assert_eq!(t.position.y, TREX_GROUND_Y + TREX_VELOCITY); // 19
    assert_eq!(t.state, TrexState::Jumping);

    t.update_state();
    assert_eq!(t.position.y, TREX_GROUND_Y + 2 * TREX_VELOCITY); // 9
    assert_eq!(t.state, TrexState::Jumping);

    t.update_state();
    assert_eq!(t.position.y, TREX_MIN_Y); // clamped at 3
    assert_eq!(t.state, TrexState::Falling);

    t.update_state();
    assert_eq!(t.position.y, TREX_MIN_Y + GRAVITY); // 18
    assert_eq!(t.state, TrexState::Falling);

    t.update_state();
    assert_eq!(t.position.y, TREX_GROUND_Y); // clamped at 29
    assert_eq!(t.state, TrexState::Running);
}

#[test]
fn jump_strictly_monotone() {
    let mut t = Trex::new(TREX_X, TREX_GROUND_Y);
    t.state = TrexState::Jumping;
    let mut prev = t.position.y;
    while t.state == TrexState::Jumping {
        t.update_state();
        assert!(t.position.y < prev, "ascent must strictly decrease y");
        assert!(t.position.y >= TREX_MIN_Y);
        prev = t.position.y;
    }
    assert_eq!(t.state, TrexState::Falling);
    while t.state == TrexState::Falling {
        t.update_state();
        assert!(t.position.y > prev, "descent must strictly increase y");
        assert!(t.position.y <= TREX_GROUND_Y);
        prev = t.position.y;
    }
    assert_eq!(t.state, TrexState::Running);
    assert_eq!(t.position.y, TREX_GROUND_Y);
}

#[test]
fn running_holds_position() {
    let mut t = Trex::new(TREX_X, TREX_GROUND_Y);
    for _ in 0..5 {
        t.update_state();
        assert_eq!(t.position.y, TREX_GROUND_Y);
        assert_eq!(t.state, TrexState::Running);
    }
}

#[test]
fn update_posistion_moves_only_position() {
    let mut t = Trex::new(TREX_X, TREX_GROUND_Y);
    t.update_posistion(12, 20);
    assert_eq!(t.position.x, 12);
    assert_eq!(t.position.y, 20);
    assert_eq!(t.state, TrexState::Running);
}
