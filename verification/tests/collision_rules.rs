use falling_catch::state::GameState;
use falling_catch::vec3::{Vec3, is_within_pickup};

#[test]
fn boundary_distance_is_not_within_pickup() {
    // Squared distance exactly 100^2: the strict comparison excludes it.
    assert!(!is_within_pickup(&Vec3::new(0, 100, 0), &Vec3::new(0, 0, 0)));
    // A diagonal boundary case: 60^2 + 80^2 == 100^2.
    assert!(!is_within_pickup(&Vec3::new(60, 80, 0), &Vec3::new(0, 0, 0)));
}

#[test]
fn just_inside_the_radius_is_within_pickup() {
    assert!(is_within_pickup(&Vec3::new(0, 99, 0), &Vec3::new(0, 0, 0)));
    assert!(is_within_pickup(&Vec3::new(60, 79, 0), &Vec3::new(0, 0, 0)));
}

#[test]
fn far_points_are_not_within_pickup() {
    assert!(!is_within_pickup(&Vec3::new(i64::MAX, 0, 0), &Vec3::new(i64::MIN, 0, 0)));
    assert!(!is_within_pickup(&Vec3::new(0, 0, 5000), &Vec3::new(0, 0, 0)));
}

#[test]
fn boundary_object_survives_a_collision_pass() {
    let mut state = GameState::new(Vec3::new(0, 0, 0));
    state.spawn(Vec3::new(0, 100, 0));
    let collected = state.resolve_pickups();
    assert!(collected.is_empty());
    assert_eq!(state.score, 0);
    assert_eq!(state.falling_objects.len(), 1);
}

#[test]
fn object_just_inside_is_collected() {
    let mut state = GameState::new(Vec3::new(0, 0, 0));
    let id = state.spawn(Vec3::new(0, 99, 0));
    let collected = state.resolve_pickups();
    assert_eq!(collected, vec![id]);
    assert_eq!(state.score, 1);
    assert!(state.falling_objects.is_empty());
}

#[test]
fn simultaneous_pickups_all_score() {
    // Every object is judged against the same player position; three in
    // range and one at the boundary leave exactly one survivor.
    let mut state = GameState::new(Vec3::new(0, 0, 0));
    let a = state.spawn(Vec3::new(0, 50, 0));
    let b = state.spawn(Vec3::new(30, 40, 0));
    let boundary = state.spawn(Vec3::new(100, 0, 0));
    let c = state.spawn(Vec3::new(-20, 10, 5));
    let collected = state.resolve_pickups();
    assert_eq!(collected, vec![a, b, c]);
    assert_eq!(state.score, 3);
    assert_eq!(state.falling_objects.len(), 1);
    assert_eq!(state.falling_objects[0].id, boundary);
}

#[test]
fn spawned_objects_get_distinct_ids() {
    let mut state = GameState::new(Vec3::new(0, 0, 0));
    let a = state.spawn(Vec3::new(0, 500, 0));
    let b = state.spawn(Vec3::new(0, 500, 0));
    let c = state.spawn(Vec3::new(0, 500, 0));
    assert_eq!((a, b, c), (0, 1, 2));
    assert_eq!(state.next_id, 3);
}
