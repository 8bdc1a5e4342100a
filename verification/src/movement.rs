//! Which player an input moves, and in which direction.

use vstd::prelude::*;
use crate::network::{axis, InputEvent, NetParams, OwnedInput, Player};

verus! {

/// The direction, one step per axis, that an input asks for.
pub open spec fn direction_of(input: InputEvent) -> (int, int) {
    (axis(input.right, input.left), axis(input.up, input.down))
}

/// Moves players by the inputs that the lockstep buffer hands out.
pub struct MoveSystem;

impl MoveSystem {
    /// The direction in which `input` moves `player`: none when the input
    /// belongs to the other side or asks for no movement.
    pub fn movement(input: &OwnedInput, player: &Player) -> (r: Option<(i8, i8)>)
        ensures
            r is Some <==> (input.is_server == player.is_server && direction_of(input.input) != (0int, 0int)),
            r matches Some(d) ==> (d.0 as int, d.1 as int) == direction_of(input.input),
    {
        if input.moves(player) && input.input.is_moving() {
            Some(input.input.direction())
        } else {
            None
        }
    }
}

/// Moves the local player directly by the keys held on this peer.
pub struct PlayerSystem;

impl PlayerSystem {
    pub fn new() -> (s: PlayerSystem) {
        PlayerSystem
    }

    /// The direction in which the keys held on this peer move `player`:
    /// none for the other side's player.
    pub fn movement(params: &NetParams, player: &Player, input: &InputEvent) -> (r: Option<(i8, i8)>)
        ensures
            r is Some <==> player.is_server == params.is_server,
            r matches Some(d) ==> (d.0 as int, d.1 as int) == direction_of(*input),
    {
        if params.is_local(player) {
            Some(input.direction())
        } else {
            None
        }
    }
}

} // verus!
