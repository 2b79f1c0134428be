use vstd::prelude::*;
use crate::collision::{lemma_kept_ids_wf, lemma_no_pickup_keeps_all};
use crate::motion::{direction_sign, fallen_object};
use crate::params::PLAYER_SPEED;
use crate::spawner::{SpawnerModel, spawner_advanced, spawner_fires};
use crate::state::{Direction, StateModel, ids_wf, spawned};
use crate::sim::{mid_state, tick_model};

verus! {

/// The total of a sequence of durations.
pub open spec fn sum_of(deltas: Seq<int>) -> int
    decreases deltas.len(),
{
    if deltas.len() == 0 {
        0
    } else {
        deltas.first() + sum_of(deltas.drop_first())
    }
}

/// The spawner after one evaluation per duration, in order.
pub open spec fn spawner_run(sp: SpawnerModel, deltas: Seq<int>) -> SpawnerModel
    decreases deltas.len(),
{
    if deltas.len() == 0 {
        sp
    } else {
        spawner_run(spawner_advanced(sp, deltas.first()), deltas.drop_first())
    }
}

/// How many of those evaluations fire — each firing evaluation yields
/// exactly one falling object.
pub open spec fn fire_count(sp: SpawnerModel, deltas: Seq<int>) -> int
    decreases deltas.len(),
{
    if deltas.len() == 0 {
        0
    } else {
        (if spawner_fires(sp, deltas.first()) {
            1int
        } else {
            0int
        }) + fire_count(spawner_advanced(sp, deltas.first()), deltas.drop_first())
    }
}

/// A total of non-negative durations is non-negative.
pub proof fn lemma_sum_nonneg(deltas: Seq<int>)
    requires
        forall|k: int| 0 <= k < deltas.len() ==> #[trigger] deltas[k] >= 0,
    ensures
        sum_of(deltas) >= 0,
    decreases deltas.len(),
{
    if deltas.len() > 0 {
        assert(forall|k: int|
            0 <= k < deltas.drop_first().len() ==> #[trigger] deltas.drop_first()[k] >= 0);
        lemma_sum_nonneg(deltas.drop_first());
    }
}

/// Spawner timing, below the period: evaluations whose durations total
/// strictly less than one period fire not at all, and the accumulator
/// holds exactly the total.
pub proof fn lemma_spawner_under_period(sp: SpawnerModel, deltas: Seq<int>)
    requires
        sp.wf(),
        forall|k: int| 0 <= k < deltas.len() ==> #[trigger] deltas[k] >= 0,
        sp.elapsed_ms + sum_of(deltas) < sp.period_ms,
    ensures
        fire_count(sp, deltas) == 0,
        spawner_run(sp, deltas) == (SpawnerModel {
            elapsed_ms: sp.elapsed_ms + sum_of(deltas),
            ..sp
        }),
    decreases deltas.len(),
{
    if deltas.len() == 0 {
        assert(spawner_run(sp, deltas) == sp);
        assert(sp == (SpawnerModel { elapsed_ms: sp.elapsed_ms + 0, ..sp }));
    } else {
        let d = deltas.first();
        let rest = deltas.drop_first();
        assert(forall|k: int| 0 <= k < rest.len() ==> #[trigger] rest[k] >= 0);
        lemma_sum_nonneg(rest);
        assert(!spawner_fires(sp, d));
        vstd::arithmetic::div_mod::lemma_small_mod(
            (sp.elapsed_ms + d) as nat,
            sp.period_ms as nat,
        );
        let sp1 = spawner_advanced(sp, d);
        assert(sp1.elapsed_ms == sp.elapsed_ms + d);
        lemma_spawner_under_period(sp1, rest);
    }
}

/// Spawner timing, at the period: evaluations whose durations total
/// exactly one period fire exactly once in all, and leave the
/// accumulator at zero.
pub proof fn lemma_spawner_exact_period(sp: SpawnerModel, deltas: Seq<int>)
    requires
        sp.wf(),
        forall|k: int| 0 <= k < deltas.len() ==> #[trigger] deltas[k] >= 0,
        sp.elapsed_ms + sum_of(deltas) == sp.period_ms,
    ensures
        fire_count(sp, deltas) == 1,
        spawner_run(sp, deltas).elapsed_ms == 0,
    decreases deltas.len(),
{
    let d = deltas.first();
    let rest = deltas.drop_first();
    assert(forall|k: int| 0 <= k < rest.len() ==> #[trigger] rest[k] >= 0);
    lemma_sum_nonneg(rest);
    let sp1 = spawner_advanced(sp, d);
    if sp.elapsed_ms + d < sp.period_ms {
        assert(!spawner_fires(sp, d));
        vstd::arithmetic::div_mod::lemma_small_mod(
            (sp.elapsed_ms + d) as nat,
            sp.period_ms as nat,
        );
        assert(sp1.elapsed_ms == sp.elapsed_ms + d);
        lemma_spawner_exact_period(sp1, rest);
    } else {
        assert(spawner_fires(sp, d));
        assert(sp.elapsed_ms + d == sp.period_ms);
        vstd::arithmetic::div_mod::lemma_mod_self_0(sp.period_ms);
        assert(sp1.elapsed_ms == 0);
        assert(sum_of(rest) == 0);
        lemma_spawner_under_period(sp1, rest);
    }
}

/// The documented single-fire policy: one evaluation that spans one or
/// more whole periods fires exactly once — one object, not one per
/// period — while the accumulator still absorbs the whole duration
/// modulo the period.
pub proof fn lemma_spawner_single_fire(sp: SpawnerModel, delta: int)
    requires
        sp.wf(),
        delta >= sp.period_ms,
    ensures
        spawner_fires(sp, delta),
        fire_count(sp, seq![delta]) == 1,
        spawner_advanced(sp, delta).wf(),
{
    let deltas = seq![delta];
    assert(deltas.first() == delta);
    assert(deltas.drop_first().len() == 0);
    assert(fire_count(spawner_advanced(sp, delta), deltas.drop_first()) == 0);
    assert(fire_count(sp, deltas) == 1 + fire_count(
        spawner_advanced(sp, deltas.first()),
        deltas.drop_first(),
    ));
    vstd::arithmetic::div_mod::lemma_mod_bound(
        sp.elapsed_ms + delta,
        sp.period_ms,
    );
}

/// A firing evaluation yields exactly one new falling object: going
/// into this tick's collision pass, the live collection has grown by
/// one when the timer fired and is otherwise unchanged in size.
pub proof fn lemma_fire_spawns_one_object(
    m: StateModel,
    sp: SpawnerModel,
    delta_ms: int,
    direction: Direction,
)
    ensures
        spawner_fires(sp, delta_ms) ==> mid_state(m, sp, delta_ms, direction).falling_objects.len()
            == m.falling_objects.len() + 1,
        !spawner_fires(sp, delta_ms) ==> mid_state(
            m,
            sp,
            delta_ms,
            direction,
        ).falling_objects.len() == m.falling_objects.len(),
{
}

/// Score monotonicity: no tick ever lowers the score.
pub proof fn lemma_score_monotonic(
    m: StateModel,
    sp: SpawnerModel,
    delta_ms: int,
    direction: Direction,
)
    ensures
        tick_model(m, sp, delta_ms, direction).score >= m.score,
{
}

/// A tick that collects nothing changes no score and moves every object
/// straight down: when no object is in pickup range after this tick's
/// motion, the score is unchanged, every object survives, and each
/// pre-existing object's position drops by exactly the falling speed in
/// y, with x and z untouched.
pub proof fn lemma_no_pickup_tick(
    m: StateModel,
    sp: SpawnerModel,
    delta_ms: int,
    direction: Direction,
)
    requires
        forall|k: int|
            0 <= k < mid_state(m, sp, delta_ms, direction).falling_objects.len()
                ==> !crate::vec3::within_pickup(
                (#[trigger] mid_state(m, sp, delta_ms, direction).falling_objects[k]).position,
                mid_state(m, sp, delta_ms, direction).player_position,
            ),
    ensures
        tick_model(m, sp, delta_ms, direction).score == m.score,
        tick_model(m, sp, delta_ms, direction).falling_objects == mid_state(
            m,
            sp,
            delta_ms,
            direction,
        ).falling_objects,
        forall|k: int|
            0 <= k < m.falling_objects.len() ==> mid_state(
                m,
                sp,
                delta_ms,
                direction,
            ).falling_objects[k] == fallen_object(#[trigger] m.falling_objects[k]),
{
    let m2 = mid_state(m, sp, delta_ms, direction);
    lemma_no_pickup_keeps_all(m2.falling_objects, m2.player_position);
    let m1 = if spawner_fires(sp, delta_ms) {
        spawned(m, sp.prototype)
    } else {
        m
    };
    assert forall|k: int| 0 <= k < m.falling_objects.len() implies m2.falling_objects[k]
        == fallen_object(#[trigger] m.falling_objects[k]) by {
        assert(m1.falling_objects[k] == m.falling_objects[k]);
        assert(m2.falling_objects[k] == fallen_object(m1.falling_objects[k]));
    }
}

/// The state after a run of ticks that all use the same directional
/// input, one tick per duration.
pub open spec fn sim_run(
    m: StateModel,
    sp: SpawnerModel,
    deltas: Seq<int>,
    direction: Direction,
) -> StateModel
    decreases deltas.len(),
{
    if deltas.len() == 0 {
        m
    } else {
        sim_run(
            tick_model(m, sp, deltas.first(), direction),
            spawner_advanced(sp, deltas.first()),
            deltas.drop_first(),
            direction,
        )
    }
}

/// Steady input moves the player linearly: over any run of ticks with
/// one unchanging input, the player's x changes by exactly the input's
/// sign times the player speed, once per tick — no acceleration — and
/// the player never leaves the ground plane. The score, meanwhile, never
/// decreases across the run.
pub proof fn lemma_steady_input_moves_linearly(
    m: StateModel,
    sp: SpawnerModel,
    deltas: Seq<int>,
    direction: Direction,
)
    ensures
        sim_run(m, sp, deltas, direction).player_position.x == m.player_position.x
            + direction_sign(direction) * (PLAYER_SPEED as int) * deltas.len(),
        sim_run(m, sp, deltas, direction).player_position.y == m.player_position.y,
        sim_run(m, sp, deltas, direction).player_position.z == m.player_position.z,
        sim_run(m, sp, deltas, direction).score >= m.score,
    decreases deltas.len(),
{
    let step = direction_sign(direction) * (PLAYER_SPEED as int);
    if deltas.len() == 0 {
        assert(step * 0 == 0) by (nonlinear_arith);
    } else {
        let d = deltas.first();
        let m1 = tick_model(m, sp, d, direction);
        assert(m1.player_position.x == m.player_position.x + step);
        lemma_steady_input_moves_linearly(
            m1,
            spawner_advanced(sp, d),
            deltas.drop_first(),
            direction,
        );
        let n = deltas.drop_first().len() as int;
        assert(step * (n + 1) == step * n + step) by (nonlinear_arith);
    }
}

/// A run never fires a negative number of times.
pub proof fn lemma_fire_count_nonneg(sp: SpawnerModel, deltas: Seq<int>)
    ensures
        fire_count(sp, deltas) >= 0,
    decreases deltas.len(),
{
    if deltas.len() > 0 {
        lemma_fire_count_nonneg(spawner_advanced(sp, deltas.first()), deltas.drop_first());
    }
}

/// Across a whole run, exactly one object is created per firing
/// evaluation: the handle counter — which every creation, and nothing
/// else, advances by one — grows by exactly the run's fire count.
pub proof fn lemma_run_creates_one_object_per_fire(
    m: StateModel,
    sp: SpawnerModel,
    deltas: Seq<int>,
    direction: Direction,
)
    requires
        m.next_id + fire_count(sp, deltas) <= u64::MAX,
    ensures
        sim_run(m, sp, deltas, direction).next_id == m.next_id + fire_count(sp, deltas),
    decreases deltas.len(),
{
    if deltas.len() > 0 {
        let d = deltas.first();
        let sp1 = spawner_advanced(sp, d);
        let m1 = tick_model(m, sp, d, direction);
        lemma_fire_count_nonneg(sp1, deltas.drop_first());
        if spawner_fires(sp, d) {
            assert(m1.next_id == m.next_id + 1);
        } else {
            assert(m1.next_id == m.next_id);
        }
        lemma_run_creates_one_object_per_fire(m1, sp1, deltas.drop_first(), direction);
    }
}

/// Every tick preserves well-formedness: from a well-formed state whose
/// handle counter has headroom, the live objects still carry pairwise
/// distinct handles, all below the new counter.
pub proof fn lemma_tick_preserves_wf(
    m: StateModel,
    sp: SpawnerModel,
    delta_ms: int,
    direction: Direction,
)
    requires
        m.wf(),
        m.next_id < u64::MAX,
    ensures
        tick_model(m, sp, delta_ms, direction).wf(),
{
    let m1 = if spawner_fires(sp, delta_ms) {
        spawned(m, sp.prototype)
    } else {
        m
    };
    assert(ids_wf(m1.falling_objects, m1.next_id));
    let m2 = mid_state(m, sp, delta_ms, direction);
    assert forall|i: int| 0 <= i < m2.falling_objects.len() implies (
    #[trigger] m2.falling_objects[i]).id == m1.falling_objects[i].id by {
        assert(m2.falling_objects[i] == fallen_object(m1.falling_objects[i]));
    }
    assert(ids_wf(m2.falling_objects, m2.next_id));
    lemma_kept_ids_wf(m2.falling_objects, m2.player_position, m2.next_id);
}

} // verus!

