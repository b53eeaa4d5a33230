//! Bullets in flight.
//!
//! A bullet's coordinates and velocity are `f64` values, held by their bit patterns. How far
//! a bullet flies in a tick is computed by the caller; here a bullet is fired, keeps its
//! identity and velocity, is put where the caller computed, and reports where it now is.

use vstd::prelude::*;

use crate::geometry::Position;
use crate::ids::{random_id, uuid_text, uuid_variant, uuid_version};
use crate::output_messages::UpdateBulletPosition;

verus! {

/// The speed every bullet is fired with: 2.0 world units per second.
pub const DEFAULT_SPEED: u64 = 0x4000_0000_0000_0000u64;

/// The damage a basic bullet does.
pub const BULLET_DAMAGE: i16 = 20i16;

/// A velocity in world units per second; each component an `f64`, held by its bit pattern.
#[derive(Clone, Copy, Debug, PartialEq, Eq, Structural)]
pub struct Velocity {
    pub velocity_x: u64,
    pub velocity_y: u64,
    pub velocity_z: u64,
}

/// A bullet's identity, where it is, and how it moves.
#[derive(Clone, Copy, Debug, PartialEq, Eq, Structural)]
pub struct BulletInfo {
    pub id: u128,
    pub position: Position,
    pub velocity: Velocity,
}

/// A plain bullet: fired at the default speed, doing the basic damage.
#[derive(Clone, Copy, Debug, PartialEq, Eq, Structural)]
pub struct BasicBullet {
    pub bullet_info: BulletInfo,
    pub speed: u64,
    pub damage: i16,
}

/// A bullet of any kind.
#[derive(Clone, Copy, Debug, PartialEq, Eq, Structural)]
pub enum Bullet {
    Basic { bullet: BasicBullet },
}

/// The identity, position and velocity of a bullet of any kind.
pub open spec fn info_of(b: Bullet) -> BulletInfo {
    match b {
        Bullet::Basic { bullet } => bullet.bullet_info,
    }
}

/// The bullet `b` put at `p`, all else kept.
pub open spec fn moved_to(b: Bullet, p: Position) -> Bullet {
    match b {
        Bullet::Basic { bullet } => Bullet::Basic {
            bullet: BasicBullet {
                bullet_info: BulletInfo { position: p, ..bullet.bullet_info },
                ..bullet
            },
        },
    }
}

/// `u` reports the bullet with identifier `id` standing at `p`.
pub open spec fn reports(u: UpdateBulletPosition, id: u128, p: Position) -> bool {
    &&& u.id@ == uuid_text(id)
    &&& u.x == p.x
    &&& u.y == p.y
    &&& u.z == p.z
}

/// `b` is a basic bullet freshly fired from `position` with `velocity`: a random (version 4)
/// identifier, the default speed and the basic damage.
pub open spec fn is_fired(b: BasicBullet, position: Position, velocity: Velocity) -> bool {
    &&& b.bullet_info.position == position
    &&& b.bullet_info.velocity == velocity
    &&& uuid_version(b.bullet_info.id) == 4
    &&& uuid_variant(b.bullet_info.id) == 2
    &&& b.speed == DEFAULT_SPEED
    &&& b.damage == BULLET_DAMAGE
}

impl BulletInfo {
    /// Puts the bullet at `position`, computed for this tick, and reports it there.
    pub fn update_position_in(&mut self, position: Position) -> (r: UpdateBulletPosition)
        ensures
            *final(self) == (BulletInfo { position, ..*old(self) }),
            reports(r, old(self).id, position),
    {
        self.position = position;
        UpdateBulletPosition::new(self.id, &self.position)
    }
}

impl BasicBullet {
    /// A bullet fired from `position` with `velocity`, under a fresh random identifier.
    pub fn new(position: Position, velocity: Velocity) -> (r: BasicBullet)
        ensures
            is_fired(r, position, velocity),
    {
        let id = random_id();
        BasicBullet {
            bullet_info: BulletInfo { id, position, velocity },
            speed: DEFAULT_SPEED,
            damage: BULLET_DAMAGE,
        }
    }
}

/// Something that moves on with every tick of the game.
pub trait TickUpdate {
    /// Moves on to `position`, computed for this tick, and reports the new position.
    fn update_position(&mut self, position: Position) -> UpdateBulletPosition;
}

impl TickUpdate for Bullet {
    fn update_position(&mut self, position: Position) -> (r: UpdateBulletPosition)
        ensures
            *final(self) == moved_to(*old(self), position),
            reports(r, info_of(*old(self)).id, position),
    {
        match self {
            Bullet::Basic { bullet } => bullet.bullet_info.update_position_in(position),
        }
    }
}

} // verus!
