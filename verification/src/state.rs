use vstd::prelude::*;
use crate::vec3::{Vec3, Vec3Model};

verus! {

/// Directional input for one tick, as the host's input layer reports it.
/// Anything that is not plainly left or right maps to `Neutral`.
#[derive(Clone, Copy, PartialEq, Eq, Structural, Debug)]
pub enum Direction {
    Left,
    Right,
    Neutral,
}

/// A live falling object: an opaque numeric handle and its current
/// position. The handle is unique among the live objects of a state.
#[derive(Clone, Copy, PartialEq, Eq, Structural, Debug)]
pub struct FallingObject {
    pub id: u64,
    pub position: Vec3,
}

/// The mathematical value of a [`FallingObject`].
pub ghost struct ObjectModel {
    pub id: u64,
    pub position: Vec3Model,
}

impl View for FallingObject {
    type V = ObjectModel;

    open spec fn view(&self) -> ObjectModel {
        ObjectModel { id: self.id, position: self.position@ }
    }
}

/// The whole simulation state: the score, the player's position on the
/// ground plane, the live falling objects, and the next unassigned object
/// handle.
pub struct GameState {
    pub score: u32,
    pub player_position: Vec3,
    pub falling_objects: Vec<FallingObject>,
    pub next_id: u64,
}

/// The mathematical value of a [`GameState`]. The score is an unbounded
/// integer here, so the model transitions carry no truncation.
pub ghost struct StateModel {
    pub score: int,
    pub player_position: Vec3Model,
    pub falling_objects: Seq<ObjectModel>,
    pub next_id: u64,
}

impl View for GameState {
    type V = StateModel;

    open spec fn view(&self) -> StateModel {
        StateModel {
            score: self.score as int,
            player_position: self.player_position@,
            falling_objects: self.falling_objects@.map_values(|o: FallingObject| o@),
            next_id: self.next_id,
        }
    }
}

/// Handle discipline over a collection of live objects: no two share a
/// handle, and every handle is below the next unassigned one.
pub open spec fn ids_wf(objs: Seq<ObjectModel>, next_id: u64) -> bool {
    &&& forall|i: int, j: int|
        0 <= i < j < objs.len() ==> #[trigger] objs[i].id != #[trigger] objs[j].id
    &&& forall|i: int| 0 <= i < objs.len() ==> #[trigger] objs[i].id < next_id
}

impl StateModel {
    /// Well-formedness of a state: its live objects obey the handle
    /// discipline [`ids_wf`].
    pub open spec fn wf(self) -> bool {
        ids_wf(self.falling_objects, self.next_id)
    }
}

/// The state after one object is created at `position`: it takes the next
/// unassigned handle and is appended to the live collection. Nothing else
/// changes.
pub open spec fn spawned(m: StateModel, position: Vec3Model) -> StateModel {
    StateModel {
        falling_objects: m.falling_objects.push(
            ObjectModel { id: m.next_id, position },
        ),
        next_id: (m.next_id + 1) as u64,
        ..m
    }
}

impl GameState {
    /// Well-formedness, lifted from the model.
    pub open spec fn wf(self) -> bool {
        self@.wf()
    }

    /// A fresh session: score zero, no falling objects, the player at
    /// `player_position`.
    pub fn new(player_position: Vec3) -> (s: GameState)
        ensures
            s@ == (StateModel {
                score: 0,
                player_position: player_position@,
                falling_objects: Seq::<ObjectModel>::empty(),
                next_id: 0,
            }),
            s.wf(),
    {
        let s = GameState {
            score: 0,
            player_position,
            falling_objects: Vec::new(),
            next_id: 0,
        };
        proof {
            assert(s@.falling_objects =~= Seq::<ObjectModel>::empty());
        }
        s
    }

    /// Creates one falling object at `position` with a fresh unique
    /// handle and returns that handle.
    pub fn spawn(&mut self, position: Vec3) -> (id: u64)
        requires
            old(self).wf(),
            old(self).next_id < u64::MAX,
        ensures
            final(self)@ == spawned(old(self)@, position@),
            id == old(self).next_id,
            final(self).wf(),
    {
        let id = self.next_id;
        self.falling_objects.push(FallingObject { id, position });
        self.next_id = self.next_id + 1;
        proof {
            assert(self@.falling_objects =~= spawned(old(self)@, position@).falling_objects);
            assert(self@ == spawned(old(self)@, position@));
        }
        id
    }
}

} // verus!
