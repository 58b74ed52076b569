use picorex::sprites::{
    Obstacle, Obstacles, NUM_OBSTACLE_KINDS, OBSTACLE_SPAWN_X, OLED_WIDTH,
};

#[test]
fn initial_queue_positions() {
    let obstacles = Obstacles::new();
    let items = obstacles.get_current();
    assert_eq!(items.len(), 2);
    assert_eq!(items[0].sprite_id, 0);
    assert_eq!(items[0].x, OLED_WIDTH); // 128
    assert_eq!(items[1].sprite_id, 1);
    assert_eq!(items[1].x, OBSTACLE_SPAWN_X); // 228
}

#[test]
fn recycle_triggers_exactly_on_exit() {
    // An obstacle at x = 5 shifted by -25 lands at -20 < 0: the recycle
    // fires, the front changes, and a fresh obstacle spawns at the back.
    let items = vec![Obstacle::new(0, 5), Obstacle::new(1, 105)];
    let mut obstacles = Obstacles::from_items(&items).expect("valid queue");
    let recycled = obstacles.update_state();
    assert!(recycled);
    let after = obstacles.get_current();
    assert_eq!(after.len(), 2);
    assert_eq!(after[0].sprite_id, 1);
    assert_eq!(after[0].x, 80);
    assert!(after[1].sprite_id < NUM_OBSTACLE_KINDS);
    assert_eq!(after[1].x, OBSTACLE_SPAWN_X);
}

#[test]
fn no_recycle_while_front_is_on_screen() {
    // A front obstacle that shifts exactly onto the left edge (x = 0) stays.
    let items = vec![Obstacle::new(2, 25), Obstacle::new(0, 125)];
    let mut obstacles = Obstacles::from_items(&items).expect("valid queue");
    let recycled = obstacles.update_state();
    assert!(!recycled);
    let after = obstacles.get_current();
    assert_eq!(after[0].sprite_id, 2);
    assert_eq!(after[0].x, 0);
    assert_eq!(after[1].x, 100);
}

#[test]
fn recycle_one_pixel_past_the_edge() {
    // One pixel closer and the shift carries the front past the edge.
    let items = vec![Obstacle::new(2, 24), Obstacle::new(0, 124)];
    let mut obstacles = Obstacles::from_items(&items).expect("valid queue");
    let recycled = obstacles.update_state();
    assert!(recycled);
    let after = obstacles.get_current();
    assert_eq!(after[0].x, 99);
    assert_eq!(after[1].x, OBSTACLE_SPAWN_X);
}

#[test]
fn queue_stays_ordered() {
    // Across many frames, the queued x values stay non-decreasing.
    let mut obstacles = Obstacles::new();
    for _ in 0..100 {
        obstacles.update_state();
        let items = obstacles.get_current();
        for w in items.windows(2) {
            assert!(w[0].x <= w[1].x, "queue order violated: {} > {}", w[0].x, w[1].x);
        }
    }
}

#[test]
fn from_items_rejects_overfull_queue() {
    let items = vec![
        Obstacle::new(0, 0),
        Obstacle::new(0, 50),
        Obstacle::new(0, 100),
        Obstacle::new(0, 150),
    ];
    assert!(Obstacles::from_items(&items).is_none());
}

#[test]
fn from_items_rejects_bad_sprite_kind() {
    let items = vec![Obstacle::new(NUM_OBSTACLE_KINDS, 50)];
    assert!(Obstacles::from_items(&items).is_none());
}

#[test]
fn from_items_rejects_out_of_range_x() {
    assert!(Obstacles::from_items(&vec![Obstacle::new(0, -1)]).is_none());
    assert!(Obstacles::from_items(&vec![Obstacle::new(0, OBSTACLE_SPAWN_X + 1)]).is_none());
}

#[test]
fn from_items_rejects_too_small_gap() {
    let items = vec![Obstacle::new(0, 50), Obstacle::new(1, 74)];
    assert!(Obstacles::from_items(&items).is_none());
}

#[test]
fn from_items_accepts_full_queue() {
    let items = vec![Obstacle::new(0, 0), Obstacle::new(1, 50), Obstacle::new(2, 100)];
    let obstacles = Obstacles::from_items(&items).expect("three items fit");
    let back = obstacles.get_current();
    assert_eq!(back.len(), 3);
    for (got, want) in back.iter().zip(items.iter()) {
        assert_eq!(got.sprite_id, want.sprite_id);
        assert_eq!(got.x, want.x);
    }
}

#[test]
fn obstacle_moves_by_velocity() {
    let mut o = Obstacle::new(1, 100);
    o.move_by_velocity(-25);
    assert_eq!(o.x, 75);
    assert_eq!(o.sprite_id, 1);
}
