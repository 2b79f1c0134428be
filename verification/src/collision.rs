use vstd::prelude::*;
use crate::state::{FallingObject, GameState, ObjectModel, StateModel, ids_wf};
use crate::vec3::{Vec3Model, dist_sq, is_within_pickup, within_pickup};
use crate::params::PICKUP_DISTANCE_SQ;

verus! {

/// The objects that survive a collision pass: those whose squared
/// distance to `player` is not strictly below the pickup threshold, in
/// their original order. Every object is judged against the same player
/// position.
pub open spec fn kept_objects(objs: Seq<ObjectModel>, player: Vec3Model) -> Seq<ObjectModel>
    decreases objs.len(),
{
    if objs.len() == 0 {
        Seq::empty()
    } else {
        let rest = kept_objects(objs.drop_last(), player);
        if within_pickup(objs.last().position, player) {
            rest
        } else {
            rest.push(objs.last())
        }
    }
}

/// The handles of the objects a collision pass collects: those strictly
/// within the pickup threshold of `player`, in their original order.
pub open spec fn collected_ids(objs: Seq<ObjectModel>, player: Vec3Model) -> Seq<u64>
    decreases objs.len(),
{
    if objs.len() == 0 {
        Seq::empty()
    } else {
        let rest = collected_ids(objs.drop_last(), player);
        if within_pickup(objs.last().position, player) {
            rest.push(objs.last().id)
        } else {
            rest
        }
    }
}

/// The state after a collision pass: every object strictly within the
/// pickup threshold is removed and scores one point; the others stay, in
/// order. Player and handle counter are untouched.
pub open spec fn pickups_resolved(m: StateModel) -> StateModel {
    StateModel {
        score: m.score + collected_ids(m.falling_objects, m.player_position).len(),
        falling_objects: kept_objects(m.falling_objects, m.player_position),
        ..m
    }
}

/// A collision pass keeps exactly as many objects as it does not collect.
pub proof fn lemma_kept_collected_len(objs: Seq<ObjectModel>, player: Vec3Model)
    ensures
        kept_objects(objs, player).len() + collected_ids(objs, player).len() == objs.len(),
    decreases objs.len(),
{
    if objs.len() > 0 {
        lemma_kept_collected_len(objs.drop_last(), player);
    }
}

/// Every survivor of a collision pass is one of the original objects.
pub proof fn lemma_kept_are_originals(objs: Seq<ObjectModel>, player: Vec3Model)
    ensures
        forall|k: int|
            0 <= k < kept_objects(objs, player).len() ==> objs.contains(
                #[trigger] kept_objects(objs, player)[k],
            ),
    decreases objs.len(),
{
    if objs.len() > 0 {
        lemma_kept_are_originals(objs.drop_last(), player);
        let kept = kept_objects(objs, player);
        let rest = kept_objects(objs.drop_last(), player);
        assert forall|k: int| 0 <= k < kept.len() implies objs.contains(#[trigger] kept[k]) by {
            if k < rest.len() {
                assert(objs.drop_last().contains(rest[k]));
                let i = choose|i: int|
                    0 <= i < objs.drop_last().len() && objs.drop_last()[i] == rest[k];
                assert(objs[i] == kept[k]);
            } else {
                assert(kept[k] == objs.last());
                assert(objs[objs.len() - 1] == objs.last());
            }
        }
    }
}

/// No survivor of a collision pass is within the pickup threshold.
pub proof fn lemma_kept_not_within(objs: Seq<ObjectModel>, player: Vec3Model)
    ensures
        forall|k: int|
            0 <= k < kept_objects(objs, player).len() ==> !within_pickup(
                (#[trigger] kept_objects(objs, player)[k]).position,
                player,
            ),
    decreases objs.len(),
{
    if objs.len() > 0 {
        lemma_kept_not_within(objs.drop_last(), player);
        let kept = kept_objects(objs, player);
        let rest = kept_objects(objs.drop_last(), player);
        assert forall|k: int| 0 <= k < kept.len() implies !within_pickup(
            (#[trigger] kept[k]).position,
            player,
        ) by {
            if k < rest.len() {
                assert(kept[k] == rest[k]);
            }
        }
    }
}

/// A collision pass preserves the handle discipline: the survivors still
/// have pairwise distinct handles, all below the same bound.
pub proof fn lemma_kept_ids_wf(objs: Seq<ObjectModel>, player: Vec3Model, next_id: u64)
    requires
        ids_wf(objs, next_id),
    ensures
        ids_wf(kept_objects(objs, player), next_id),
    decreases objs.len(),
{
    if objs.len() > 0 {
        let prefix = objs.drop_last();
        assert(ids_wf(prefix, next_id));
        lemma_kept_ids_wf(prefix, player, next_id);
        lemma_kept_are_originals(prefix, player);
        let kept = kept_objects(objs, player);
        let rest = kept_objects(prefix, player);
        if !within_pickup(objs.last().position, player) {
            assert forall|i: int, j: int| 0 <= i < j < kept.len() implies #[trigger] kept[i].id
                != #[trigger] kept[j].id by {
                if j == kept.len() - 1 {
                    assert(prefix.contains(rest[i]));
                    let m = choose|m: int| 0 <= m < prefix.len() && prefix[m] == rest[i];
                    assert(objs[m] == kept[i]);
                    assert(objs[objs.len() - 1] == objs.last());
                }
            }
        }
    }
}

/// An object whose squared distance to the player is at or beyond the
/// pickup threshold — the exact boundary included — is not collected: it
/// survives the collision pass unchanged.
pub proof fn lemma_at_boundary_not_collected(objs: Seq<ObjectModel>, player: Vec3Model, i: int)
    requires
        0 <= i < objs.len(),
        dist_sq(objs[i].position, player) >= PICKUP_DISTANCE_SQ as int,
    ensures
        !within_pickup(objs[i].position, player),
        kept_objects(objs, player).contains(objs[i]),
    decreases objs.len(),
{
    if i == objs.len() - 1 {
        assert(objs.last() == objs[i]);
        let kept = kept_objects(objs, player);
        assert(kept[kept.len() - 1] == objs[i]);
    } else {
        assert(objs.drop_last()[i] == objs[i]);
        lemma_at_boundary_not_collected(objs.drop_last(), player, i);
        let rest = kept_objects(objs.drop_last(), player);
        let k = choose|k: int| 0 <= k < rest.len() && rest[k] == objs[i];
        assert(kept_objects(objs, player)[k] == objs[i]);
    }
}

/// An object strictly within the pickup threshold is collected: its
/// handle is among the collected handles of the pass.
pub proof fn lemma_within_collected(objs: Seq<ObjectModel>, player: Vec3Model, i: int)
    requires
        0 <= i < objs.len(),
        dist_sq(objs[i].position, player) < PICKUP_DISTANCE_SQ as int,
    ensures
        within_pickup(objs[i].position, player),
        collected_ids(objs, player).contains(objs[i].id),
    decreases objs.len(),
{
    if i == objs.len() - 1 {
        assert(objs.last() == objs[i]);
        let ids = collected_ids(objs, player);
        assert(ids[ids.len() - 1] == objs[i].id);
    } else {
        assert(objs.drop_last()[i] == objs[i]);
        lemma_within_collected(objs.drop_last(), player, i);
        let rest = collected_ids(objs.drop_last(), player);
        let k = choose|k: int| 0 <= k < rest.len() && rest[k] == objs[i].id;
        assert(collected_ids(objs, player)[k] == objs[i].id);
    }
}

/// An object strictly within the pickup threshold is also removed: under
/// the handle discipline, no survivor carries its handle.
pub proof fn lemma_within_removed(
    objs: Seq<ObjectModel>,
    player: Vec3Model,
    next_id: u64,
    i: int,
)
    requires
        ids_wf(objs, next_id),
        0 <= i < objs.len(),
        dist_sq(objs[i].position, player) < PICKUP_DISTANCE_SQ as int,
    ensures
        forall|k: int|
            0 <= k < kept_objects(objs, player).len()
                ==> (#[trigger] kept_objects(objs, player)[k]).id != objs[i].id,
{
    lemma_kept_are_originals(objs, player);
    lemma_kept_not_within(objs, player);
    let kept = kept_objects(objs, player);
    assert forall|k: int| 0 <= k < kept.len() implies (#[trigger] kept[k]).id != objs[i].id by {
        assert(objs.contains(kept[k]));
        let m = choose|m: int| 0 <= m < objs.len() && objs[m] == kept[k];
        if m == i {
            assert(within_pickup(kept[k].position, player));
        }
    }
}

/// When nothing is in range, a collision pass is a no-op: every object
/// survives and nothing is collected.
pub proof fn lemma_no_pickup_keeps_all(objs: Seq<ObjectModel>, player: Vec3Model)
    requires
        forall|k: int|
            0 <= k < objs.len() ==> !within_pickup((#[trigger] objs[k]).position, player),
    ensures
        kept_objects(objs, player) == objs,
        collected_ids(objs, player) == Seq::<u64>::empty(),
    decreases objs.len(),
{
    if objs.len() == 0 {
        assert(kept_objects(objs, player) =~= objs);
    } else {
        assert(forall|k: int|
            0 <= k < objs.drop_last().len() ==> !within_pickup(
                (#[trigger] objs.drop_last()[k]).position,
                player,
            ));
        lemma_no_pickup_keeps_all(objs.drop_last(), player);
        assert(objs.last() == objs[objs.len() - 1]);
        assert(kept_objects(objs, player) =~= objs);
    }
}

impl GameState {
    /// One collision pass: removes every falling object strictly within
    /// the pickup threshold of the current player position, adds one
    /// point per removed object, and returns the removed handles in
    /// order. The whole pass judges every object against the same player
    /// position, so simultaneous pickups are all applied.
    pub fn resolve_pickups(&mut self) -> (collected: Vec<u64>)
        requires
            old(self).score + old(self).falling_objects@.len() <= u32::MAX,
        ensures
            final(self)@ == pickups_resolved(old(self)@),
            collected@ == collected_ids(old(self)@.falling_objects, old(self)@.player_position),
    {
        let ghost orig = self@.falling_objects;
        let ghost player_m = self@.player_position;
        let player = self.player_position;
        let mut kept: Vec<FallingObject> = Vec::new();
        let mut collected: Vec<u64> = Vec::new();
        let n = self.falling_objects.len();
        let mut i: usize = 0;
        while i < n
            invariant
                i <= n,
                n == self.falling_objects@.len(),
                *self == *old(self),
                orig == self@.falling_objects,
                player_m == self@.player_position,
                player == self.player_position,
                kept@.map_values(|o: FallingObject| o@) == kept_objects(
                    orig.take(i as int),
                    player_m,
                ),
                collected@ == collected_ids(orig.take(i as int), player_m),
                kept@.len() + collected@.len() == i,
            decreases n - i,
        {
            let object = self.falling_objects[i];
            proof {
                assert(object@ == orig[i as int]);
                let t = orig.take(i as int + 1);
                assert(t.drop_last() =~= orig.take(i as int));
                assert(t.last() == orig[i as int]);
            }
            if is_within_pickup(&object.position, &player) {
                collected.push(object.id);
            } else {
                kept.push(object);
                proof {
                    assert(kept@.map_values(|o: FallingObject| o@) =~= kept_objects(
                        orig.take(i as int + 1),
                        player_m,
                    ));
                }
            }
            i = i + 1;
        }
        proof {
            assert(orig.take(n as int) =~= orig);
            lemma_kept_collected_len(orig, player_m);
        }
        let scored = collected.len();
        self.score = self.score + (scored as u32);
        self.falling_objects = kept;
        proof {
            assert(self@ == pickups_resolved(old(self)@));
        }
        collected
    }
}

} // verus!
