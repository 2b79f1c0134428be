use vstd::prelude::*;
use crate::collision::{
    collected_ids, lemma_kept_collected_len, lemma_kept_ids_wf, pickups_resolved,
};
use crate::motion::{objects_fallen, player_moved};
use crate::params::{FALLING_SPEED, PLAYER_SPEED};
use crate::spawner::{Spawner, SpawnerModel, spawner_advanced, spawner_fires};
use crate::state::{Direction, GameState, ObjectModel, StateModel, ids_wf, spawned};
use crate::vec3::{Vec3, Vec3Model};

verus! {

/// One notification from a tick, for the host's renderer.
#[derive(Clone, Copy, PartialEq, Eq, Structural, Debug)]
pub enum GameEvent {
    /// A falling object appeared at `position` under a fresh handle.
    Spawned { id: u64, position: Vec3 },
    /// A live falling object dropped to `position` this tick.
    Moved { id: u64, position: Vec3 },
    /// A falling object was collected and removed.
    Despawned { id: u64 },
    /// The score rose to `score` this tick.
    ScoreChanged { score: u32 },
}

/// The mathematical value of a [`GameEvent`].
pub ghost enum EventModel {
    Spawned { id: u64, position: Vec3Model },
    Moved { id: u64, position: Vec3Model },
    Despawned { id: u64 },
    ScoreChanged { score: int },
}

impl View for GameEvent {
    type V = EventModel;

    open spec fn view(&self) -> EventModel {
        match *self {
            GameEvent::Spawned { id, position } => EventModel::Spawned {
                id,
                position: position@,
            },
            GameEvent::Moved { id, position } => EventModel::Moved { id, position: position@ },
            GameEvent::Despawned { id } => EventModel::Despawned { id },
            GameEvent::ScoreChanged { score } => EventModel::ScoreChanged {
                score: score as int,
            },
        }
    }
}

/// The mathematical values of a sequence of notifications.
pub open spec fn event_views(events: Seq<GameEvent>) -> Seq<EventModel> {
    events.map_values(|e: GameEvent| e@)
}

/// One move notification per object, in collection order.
pub open spec fn move_notices(objs: Seq<ObjectModel>) -> Seq<EventModel> {
    objs.map_values(|o: ObjectModel| EventModel::Moved { id: o.id, position: o.position })
}

/// One despawn notification per collected handle, in collection order.
pub open spec fn despawn_notices(ids: Seq<u64>) -> Seq<EventModel> {
    ids.map_values(|id: u64| EventModel::Despawned { id })
}

/// The state a tick reaches just before its collision pass: one object
/// spawned if the timer fired, then the player moved for `direction`,
/// then every object dropped one step.
pub open spec fn mid_state(
    m: StateModel,
    sp: SpawnerModel,
    delta_ms: int,
    direction: Direction,
) -> StateModel {
    let m1 = if spawner_fires(sp, delta_ms) {
        spawned(m, sp.prototype)
    } else {
        m
    };
    objects_fallen(player_moved(m1, direction))
}

/// The state transition of one whole tick: spawning, motion, then the
/// collision pass, in that order.
pub open spec fn tick_model(
    m: StateModel,
    sp: SpawnerModel,
    delta_ms: int,
    direction: Direction,
) -> StateModel {
    pickups_resolved(mid_state(m, sp, delta_ms, direction))
}

/// The notifications of one tick, in order: the spawn if the timer
/// fired, one move per live object after motion, one despawn per
/// collected object, and the new score if any object was collected.
pub open spec fn tick_events(
    m: StateModel,
    sp: SpawnerModel,
    delta_ms: int,
    direction: Direction,
) -> Seq<EventModel> {
    let spawn_seq: Seq<EventModel> = if spawner_fires(sp, delta_ms) {
        seq![EventModel::Spawned { id: m.next_id, position: sp.prototype }]
    } else {
        Seq::empty()
    };
    let m2 = mid_state(m, sp, delta_ms, direction);
    let m3 = pickups_resolved(m2);
    let moved_seq = move_notices(m2.falling_objects);
    let despawn_seq = despawn_notices(collected_ids(m2.falling_objects, m2.player_position));
    let score_seq: Seq<EventModel> = if m3.score != m2.score {
        seq![EventModel::ScoreChanged { score: m3.score }]
    } else {
        Seq::empty()
    };
    spawn_seq + moved_seq + despawn_seq + score_seq
}

/// One whole simulation tick, the single entry point a host calls per
/// step: the spawner consumes `delta_ms` of real time and may create one
/// object, the player moves for `direction`, every object falls one
/// step, and the collision pass collects everything strictly within the
/// pickup radius. Returns the tick's notifications, in order.
///
/// The preconditions are machine limits only: coordinates, score and
/// handle counter must have one step of headroom in their fixed-width
/// types.
pub fn tick(
    state: &mut GameState,
    spawner: &mut Spawner,
    delta_ms: u64,
    direction: Direction,
) -> (events: Vec<GameEvent>)
    requires
        old(state).wf(),
        old(spawner).wf(),
        old(state).next_id < u64::MAX,
        i64::MIN + PLAYER_SPEED <= old(state).player_position.x <= i64::MAX - PLAYER_SPEED,
        forall|k: int|
            0 <= k < old(state).falling_objects@.len()
                ==> #[trigger] old(state).falling_objects@[k].position.y >= i64::MIN
                + FALLING_SPEED,
        old(spawner).prototype.y >= i64::MIN + FALLING_SPEED,
        old(state).score + old(state).falling_objects@.len() + 1 <= u32::MAX,
    ensures
        final(state)@ == tick_model(old(state)@, old(spawner)@, delta_ms as int, direction),
        final(spawner)@ == spawner_advanced(old(spawner)@, delta_ms as int),
        event_views(events@) == tick_events(
            old(state)@,
            old(spawner)@,
            delta_ms as int,
            direction,
        ),
        final(state).wf(),
        final(spawner).wf(),
        final(state)@.score >= old(state)@.score,
        final(state)@.player_position.y == old(state)@.player_position.y,
        final(state)@.player_position.z == old(state)@.player_position.z,
{
    let ghost m0 = state@;
    let ghost sp0 = spawner@;
    let mut events: Vec<GameEvent> = Vec::new();

    // Spawning.
    let fired = spawner.advance(delta_ms);
    if fired {
        let position = spawner.prototype;
        let id = state.spawn(position);
        events.push(GameEvent::Spawned { id, position });
    }
    let ghost m1 = state@;
    let ghost spawn_seq = event_views(events@);
    proof {
        assert(m1 == if spawner_fires(sp0, delta_ms as int) {
            spawned(m0, sp0.prototype)
        } else {
            m0
        });
        if spawner_fires(sp0, delta_ms as int) {
            assert(spawn_seq =~= seq![
                EventModel::Spawned { id: m0.next_id, position: sp0.prototype },
            ]);
        } else {
            assert(spawn_seq =~= Seq::<EventModel>::empty());
        }
    }

    // Motion: the player from the input, then every falling object.
    state.move_player(direction);
    proof {
        assert forall|k: int| 0 <= k < state.falling_objects@.len() implies #[trigger] state
            .falling_objects@[k].position.y >= i64::MIN + FALLING_SPEED by {
            let objs = state@.falling_objects;
            assert(objs[k] == state.falling_objects@[k]@);
            if k < m0.falling_objects.len() {
                assert(objs[k] == m0.falling_objects[k]);
                assert(m0.falling_objects[k] == old(state).falling_objects@[k]@);
                assert(old(state).falling_objects@[k].position.y >= i64::MIN + FALLING_SPEED);
            } else {
                assert(state@ == player_moved(m1, direction));
                assert(objs == m1.falling_objects);
                assert(spawner_fires(sp0, delta_ms as int));
                assert(m1.falling_objects == m0.falling_objects.push(
                    ObjectModel { id: m0.next_id, position: sp0.prototype },
                ));
                assert(objs.len() == state.falling_objects@.len());
                assert(k == m0.falling_objects.len());
                assert(objs[k] == ObjectModel { id: m0.next_id, position: sp0.prototype });
                assert(sp0.prototype.y == old(spawner).prototype.y as int);
            }
        }
    }
    state.move_falling();
    let ghost m2 = state@;
    proof {
        assert(m2 == mid_state(m0, sp0, delta_ms as int, direction));
    }

    // One move notification per live object.
    let ghost moved_seq = move_notices(m2.falling_objects);
    let n = state.falling_objects.len();
    let mut i: usize = 0;
    while i < n
        invariant
            i <= n,
            n == state.falling_objects@.len(),
            state@ == m2,
            moved_seq == move_notices(m2.falling_objects),
            event_views(events@) == spawn_seq + moved_seq.take(i as int),
        decreases n - i,
    {
        let ghost prev = events@;
        let object = state.falling_objects[i];
        events.push(GameEvent::Moved { id: object.id, position: object.position });
        proof {
            assert(object@ == m2.falling_objects[i as int]);
            assert(event_views(events@) =~= event_views(prev).push(
                EventModel::Moved {
                    id: object.id,
                    position: object.position@,
                },
            ));
            assert(event_views(events@) =~= spawn_seq + moved_seq.take(i as int + 1));
        }
        i = i + 1;
    }
    proof {
        assert(moved_seq.take(n as int) =~= moved_seq);
    }

    // The collision pass, then one despawn notification per pickup.
    let ghost despawn_seq = despawn_notices(collected_ids(m2.falling_objects, m2.player_position));
    let before_score = state.score;
    let collected = state.resolve_pickups();
    proof {
        assert(state@ == tick_model(m0, sp0, delta_ms as int, direction));
        lemma_kept_collected_len(m2.falling_objects, m2.player_position);
        assert(ids_wf(m2.falling_objects, m2.next_id));
        lemma_kept_ids_wf(m2.falling_objects, m2.player_position, m2.next_id);
    }
    let c = collected.len();
    let mut j: usize = 0;
    while j < c
        invariant
            j <= c,
            c == collected@.len(),
            collected@ == collected_ids(m2.falling_objects, m2.player_position),
            despawn_seq == despawn_notices(
                collected_ids(m2.falling_objects, m2.player_position),
            ),
            event_views(events@) == spawn_seq + moved_seq + despawn_seq.take(j as int),
        decreases c - j,
    {
        let ghost prev = events@;
        let id = collected[j];
        events.push(GameEvent::Despawned { id });
        proof {
            assert(event_views(events@) =~= event_views(prev).push(
                EventModel::Despawned { id },
            ));
            assert(event_views(events@) =~= spawn_seq + moved_seq + despawn_seq.take(
                j as int + 1,
            ));
        }
        j = j + 1;
    }
    proof {
        assert(despawn_seq.take(c as int) =~= despawn_seq);
    }

    // The new score, if this tick collected anything.
    let ghost before_last = events@;
    if state.score != before_score {
        events.push(GameEvent::ScoreChanged { score: state.score });
        proof {
            assert(event_views(events@) =~= event_views(before_last).push(
                EventModel::ScoreChanged { score: state.score as int },
            ));
        }
    }
    proof {
        assert(event_views(events@) =~= tick_events(m0, sp0, delta_ms as int, direction));
    }
    events
}

} // verus!
