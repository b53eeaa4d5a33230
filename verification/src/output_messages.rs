//! The messages that the server sends to every player.
//!
//! These mirror the protobuf messages of the wire protocol; every `double` field holds the
//! bit pattern of its value.

pub mod update_game_event;

use vstd::prelude::*;

use crate::geometry::Position;
use crate::ids::{id_text, uuid_text};
use self::update_game_event::UpdateEvent;

verus! {

/// A player has joined.
#[derive(Clone, Debug, PartialEq)]
pub struct AddedPlayer {
    pub id: String,
    pub username: String,
}

/// A player has left, or could not be reached.
#[derive(Clone, Debug, PartialEq)]
pub struct RemovedPlayer {
    pub id: String,
}

/// A player's new position.
#[derive(Clone, Copy, Debug, PartialEq)]
pub struct ChangedPlayerPosition {
    pub x: u64,
    pub y: u64,
    pub z: u64,
}

/// A bullet has been fired from a position.
#[derive(Clone, Debug, PartialEq)]
pub struct CreateBullet {
    pub id: String,
    pub x: u64,
    pub y: u64,
    pub z: u64,
}

/// A bullet's position after a tick.
#[derive(Clone, Debug, PartialEq)]
pub struct UpdateBulletPosition {
    pub id: String,
    pub x: u64,
    pub y: u64,
    pub z: u64,
}

/// The positions of every bullet after a tick.
#[derive(Clone, Debug, PartialEq)]
pub struct UpdateAllBullets {
    pub update_bullet_position: Vec<UpdateBulletPosition>,
}

/// One datagram's worth of server output.
#[derive(Clone, Debug, PartialEq)]
pub struct UpdateGameEvent {
    pub update_event: Option<UpdateEvent>,
}

impl CreateBullet {
    /// The announcement of a bullet with the given identifier at the given position.
    pub fn new(bullet_id: u128, position: &Position) -> (r: CreateBullet)
        ensures
            r.id@ == uuid_text(bullet_id),
            r.x == position.x,
            r.y == position.y,
            r.z == position.z,
    {
        CreateBullet { id: id_text(bullet_id), x: position.x, y: position.y, z: position.z }
    }
}

impl UpdateBulletPosition {
    /// The report of a bullet with the given identifier at the given position.
    pub fn new(bullet_id: u128, position: &Position) -> (r: UpdateBulletPosition)
        ensures
            r.id@ == uuid_text(bullet_id),
            r.x == position.x,
            r.y == position.y,
            r.z == position.z,
    {
        UpdateBulletPosition {
            id: id_text(bullet_id),
            x: position.x,
            y: position.y,
            z: position.z,
        }
    }
}

} // verus!
