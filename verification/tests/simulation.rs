use falling_catch::sim::{GameEvent, tick};
use falling_catch::spawner::Spawner;
use falling_catch::state::{Direction, GameState};
use falling_catch::vec3::Vec3;

fn fresh() -> (GameState, Spawner) {
    (
        GameState::new(Vec3::new(0, 0, 0)),
        Spawner::new(1000, Vec3::new(0, 500, 0)),
    )
}

#[test]
fn new_state_is_empty() {
    let (state, _) = fresh();
    assert_eq!(state.score, 0);
    assert_eq!(state.player_position, Vec3::new(0, 0, 0));
    assert!(state.falling_objects.is_empty());
    assert_eq!(state.next_id, 0);
}

#[test]
fn tick_spawns_when_the_timer_fires() {
    let (mut state, mut spawner) = fresh();
    let events = tick(&mut state, &mut spawner, 1000, Direction::Neutral);
    // The new object spawns at the prototype, then falls this same tick.
    assert_eq!(
        events,
        vec![
            GameEvent::Spawned { id: 0, position: Vec3::new(0, 500, 0) },
            GameEvent::Moved { id: 0, position: Vec3::new(0, 495, 0) },
        ]
    );
    assert_eq!(state.falling_objects.len(), 1);
    assert_eq!(state.falling_objects[0].position, Vec3::new(0, 495, 0));
    assert_eq!(state.score, 0);
    assert_eq!(state.next_id, 1);
    assert_eq!(spawner.elapsed_ms, 0);
}

#[test]
fn tick_without_firing_spawns_nothing() {
    let (mut state, mut spawner) = fresh();
    let events = tick(&mut state, &mut spawner, 999, Direction::Neutral);
    assert!(events.is_empty());
    assert!(state.falling_objects.is_empty());
    assert_eq!(spawner.elapsed_ms, 999);
}

#[test]
fn one_object_per_firing_tick() {
    let (mut state, mut spawner) = fresh();
    for expected in 1..=5u64 {
        tick(&mut state, &mut spawner, 1000, Direction::Neutral);
        assert_eq!(state.next_id, expected);
        assert_eq!(state.falling_objects.len(), expected as usize);
    }
    // Sub-period ticks in between create nothing.
    tick(&mut state, &mut spawner, 400, Direction::Neutral);
    assert_eq!(state.next_id, 5);
    assert_eq!(state.falling_objects.len(), 5);
}

#[test]
fn repeated_left_input_moves_linearly() {
    // One fixed decrement per tick, no acceleration.
    let (mut state, mut spawner) = fresh();
    for i in 1..=10i64 {
        tick(&mut state, &mut spawner, 0, Direction::Left);
        assert_eq!(state.player_position, Vec3::new(-5 * i, 0, 0));
    }
}

#[test]
fn repeated_right_input_moves_linearly() {
    let (mut state, mut spawner) = fresh();
    for i in 1..=4i64 {
        tick(&mut state, &mut spawner, 0, Direction::Right);
        assert_eq!(state.player_position, Vec3::new(5 * i, 0, 0));
    }
}

#[test]
fn out_of_range_tick_only_lowers_objects() {
    // Nothing in pickup range: the score stays, every object drops by
    // exactly the falling speed, and x and z are untouched.
    let (mut state, mut spawner) = fresh();
    state.spawn(Vec3::new(20, 300, 0));
    state.spawn(Vec3::new(-40, 250, 30));
    let events = tick(&mut state, &mut spawner, 0, Direction::Neutral);
    assert_eq!(state.score, 0);
    assert_eq!(state.falling_objects.len(), 2);
    assert_eq!(state.falling_objects[0].position, Vec3::new(20, 295, 0));
    assert_eq!(state.falling_objects[1].position, Vec3::new(-40, 245, 30));
    assert_eq!(
        events,
        vec![
            GameEvent::Moved { id: 0, position: Vec3::new(20, 295, 0) },
            GameEvent::Moved { id: 1, position: Vec3::new(-40, 245, 30) },
        ]
    );
}

#[test]
fn score_never_decreases_over_a_session() {
    // Spawn close above the player so pickups happen along the way.
    let mut state = GameState::new(Vec3::new(0, 0, 0));
    let mut spawner = Spawner::new(1000, Vec3::new(0, 150, 0));
    let mut last_score = 0u32;
    for step in 0..50u64 {
        let dir = match step % 3 {
            0 => Direction::Left,
            1 => Direction::Right,
            _ => Direction::Neutral,
        };
        tick(&mut state, &mut spawner, 400, dir);
        assert!(state.score >= last_score);
        last_score = state.score;
    }
    assert!(last_score > 0);
}

#[test]
fn full_descent_boundary_then_pickup() {
    // One object dropped from 5.0 units straight above the player: after
    // 80 ticks it sits exactly on the pickup boundary and is not
    // collected; the 81st tick brings it strictly inside, scores one
    // point and removes it.
    let (mut state, mut spawner) = fresh();
    let id = state.spawn(Vec3::new(0, 500, 0));
    for _ in 0..80 {
        tick(&mut state, &mut spawner, 0, Direction::Neutral);
    }
    assert_eq!(state.score, 0);
    assert_eq!(state.falling_objects.len(), 1);
    assert_eq!(state.falling_objects[0].position, Vec3::new(0, 100, 0));

    let events = tick(&mut state, &mut spawner, 0, Direction::Neutral);
    assert_eq!(state.score, 1);
    assert!(state.falling_objects.is_empty());
    assert_eq!(
        events,
        vec![
            GameEvent::Moved { id, position: Vec3::new(0, 95, 0) },
            GameEvent::Despawned { id },
            GameEvent::ScoreChanged { score: 1 },
        ]
    );
}
