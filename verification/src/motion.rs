use vstd::prelude::*;
use crate::params::{FALLING_SPEED, PLAYER_SPEED};
use crate::state::{Direction, GameState, ObjectModel, StateModel};
use crate::vec3::Vec3Model;

verus! {

/// The horizontal sense of a directional input: `-1` for left, `+1` for
/// right, `0` for no input.
pub open spec fn direction_sign(direction: Direction) -> int {
    match direction {
        Direction::Left => -1,
        Direction::Right => 1,
        Direction::Neutral => 0,
    }
}

/// The state after the player moves for one tick: the x coordinate
/// changes by exactly the sign of the input times [`PLAYER_SPEED`] — no
/// acceleration, no scaling by elapsed time — and the player never leaves
/// the ground plane: y and z stay as they are.
pub open spec fn player_moved(m: StateModel, direction: Direction) -> StateModel {
    StateModel {
        player_position: Vec3Model {
            x: m.player_position.x + direction_sign(direction) * (PLAYER_SPEED as int),
            ..m.player_position
        },
        ..m
    }
}

/// One falling object after one tick of gravity: y drops by exactly
/// [`FALLING_SPEED`]; x, z and the handle stay as they are.
pub open spec fn fallen_object(o: ObjectModel) -> ObjectModel {
    ObjectModel {
        position: Vec3Model { y: o.position.y - (FALLING_SPEED as int), ..o.position },
        ..o
    }
}

/// The state after every live falling object drops for one tick. Score,
/// player and handle counter are untouched.
pub open spec fn objects_fallen(m: StateModel) -> StateModel {
    StateModel {
        falling_objects: m.falling_objects.map_values(|o: ObjectModel| fallen_object(o)),
        ..m
    }
}

impl GameState {
    /// Moves the player for one tick of the given input, by exactly
    /// [`player_moved`].
    pub fn move_player(&mut self, direction: Direction)
        requires
            i64::MIN + PLAYER_SPEED <= old(self).player_position.x <= i64::MAX - PLAYER_SPEED,
        ensures
            final(self)@ == player_moved(old(self)@, direction),
    {
        match direction {
            Direction::Left => {
                self.player_position.x = self.player_position.x - PLAYER_SPEED;
            },
            Direction::Right => {
                self.player_position.x = self.player_position.x + PLAYER_SPEED;
            },
            Direction::Neutral => {},
        }
    }

    /// Drops every live falling object for one tick, by exactly
    /// [`objects_fallen`].
    pub fn move_falling(&mut self)
        requires
            forall|k: int|
                0 <= k < old(self).falling_objects@.len()
                    ==> #[trigger] old(self).falling_objects@[k].position.y >= i64::MIN
                    + FALLING_SPEED,
        ensures
            final(self)@ == objects_fallen(old(self)@),
    {
        let n = self.falling_objects.len();
        let mut i: usize = 0;
        while i < n
            invariant
                n == self.falling_objects@.len(),
                i <= n,
                forall|k: int|
                    0 <= k < old(self).falling_objects@.len()
                        ==> #[trigger] old(self).falling_objects@[k].position.y >= i64::MIN
                        + FALLING_SPEED,
                n == old(self).falling_objects@.len(),
                self.score == old(self).score,
                self.player_position == old(self).player_position,
                self.next_id == old(self).next_id,
                forall|k: int|
                    0 <= k < i ==> #[trigger] self.falling_objects@[k]@ == fallen_object(
                        old(self).falling_objects@[k]@,
                    ),
                forall|k: int|
                    i <= k < n ==> #[trigger] self.falling_objects@[k] == old(
                        self,
                    ).falling_objects@[k],
            decreases n - i,
        {
            let y = self.falling_objects[i].position.y;
            assert(y == old(self).falling_objects@[i as int].position.y);
            let object = &mut self.falling_objects[i];
            object.position.y = y - FALLING_SPEED;
            i = i + 1;
        }
        proof {
            assert(self@.falling_objects =~= objects_fallen(old(self)@).falling_objects);
            assert(self@ == objects_fallen(old(self)@));
        }
    }
}

} // verus!
