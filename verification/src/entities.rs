//! The players of a game.

use vstd::prelude::*;

use crate::address::SocketAddress;
use crate::geometry::Position;
use crate::networking::PlayerServerInfo;

verus! {

/// A player, known to the server by the address its datagrams come from.
#[derive(Clone, Debug)]
pub struct Player {
    pub id: String,
    pub username: String,
    pub server_info: PlayerServerInfo,
    pub health: i32,
    pub position: Position,
}

/// The health that every player starts with.
pub const STARTING_HEALTH: i32 = 100;

/// A newly joined player: full health, standing at the origin.
pub open spec fn new_player(id: String, username: String, addr: SocketAddress) -> Player {
    Player {
        id,
        username,
        server_info: PlayerServerInfo { addr },
        health: STARTING_HEALTH,
        position: Position::spec_origin(),
    }
}

impl Player {
    /// A player who has just joined from `addr`.
    pub fn new(id: String, username: String, addr: SocketAddress) -> (r: Player)
        ensures
            r == new_player(id, username, addr),
    {
        Player {
            id,
            username,
            server_info: PlayerServerInfo { addr },
            health: STARTING_HEALTH,
            position: Position::origin(),
        }
    }
}

/// State of the game beyond its players and bullets; the game keeps none yet.
#[derive(Clone, Copy, Debug)]
pub struct GameState {}

} // verus!
