//! The messages that clients send to the server.
//!
//! These mirror the protobuf messages of the wire protocol. Every `double` field holds the
//! bit pattern of its value (see [`crate::ieee754`]), so the derived `==` of these types
//! compares bits; [`GameEvent::is_same`] compares as the protocol's `==` does.

pub mod game_event;

use vstd::prelude::*;

use crate::ieee754::{doubles_equal, float_eq};
use self::game_event::Event;

verus! {

/// A player asks to join the game.
#[derive(Clone, Debug, PartialEq)]
pub struct PlayerJoined {
    pub id: String,
    pub username: String,
}

/// A player moves by a distance in the horizontal plane.
#[derive(Clone, Copy, Debug, PartialEq)]
pub struct Move {
    pub distance_x: u64,
    pub distance_y: u64,
}

/// A player leaves the game.
#[derive(Clone, Debug, PartialEq)]
pub struct PlayerLeft {
    pub id: String,
}

/// The direction of a shot.
#[derive(Clone, Copy, Debug, PartialEq)]
pub struct Direction {
    pub direction_x: u64,
    pub direction_y: u64,
    pub direction_z: u64,
}

/// A player fires a bullet.
#[derive(Clone, Copy, Debug, PartialEq)]
pub struct Shoot {
    pub direction: Option<Direction>,
}

/// One datagram's worth of client input.
#[derive(Clone, Debug, PartialEq)]
pub struct GameEvent {
    pub event: Option<Event>,
}

/// The protocol's equality of two directions: each coordinate compared as an `f64`.
pub open spec fn same_direction(a: Direction, b: Direction) -> bool {
    &&& float_eq(a.direction_x, b.direction_x)
    &&& float_eq(a.direction_y, b.direction_y)
    &&& float_eq(a.direction_z, b.direction_z)
}

/// The protocol's equality of two events: same kind, equal strings, equal doubles.
pub open spec fn same_event(a: Event, b: Event) -> bool {
    match (a, b) {
        (Event::Joined(p), Event::Joined(q)) => p.id@ == q.id@ && p.username@ == q.username@,
        (Event::Move(p), Event::Move(q)) => float_eq(p.distance_x, q.distance_x) && float_eq(
            p.distance_y,
            q.distance_y,
        ),
        (Event::Left(p), Event::Left(q)) => p.id@ == q.id@,
        (Event::Shoot(p), Event::Shoot(q)) => match (p.direction, q.direction) {
            (None, None) => true,
            (Some(d), Some(e)) => same_direction(d, e),
            _ => false,
        },
        _ => false,
    }
}

/// The protocol's equality of two game events.
pub open spec fn same_game_event(a: GameEvent, b: GameEvent) -> bool {
    match (a.event, b.event) {
        (None, None) => true,
        (Some(x), Some(y)) => same_event(x, y),
        _ => false,
    }
}

impl Direction {
    /// Compares two directions coordinate by coordinate, as `f64` values.
    pub fn is_same(&self, other: &Direction) -> (r: bool)
        ensures
            r == same_direction(*self, *other),
    {
        doubles_equal(self.direction_x, other.direction_x) && doubles_equal(
            self.direction_y,
            other.direction_y,
        ) && doubles_equal(self.direction_z, other.direction_z)
    }
}

impl Event {
    /// Compares two events as the protocol does.
    pub fn is_same(&self, other: &Event) -> (r: bool)
        ensures
            r == same_event(*self, *other),
    {
        match (self, other) {
            (Event::Joined(p), Event::Joined(q)) => p.id == q.id && p.username == q.username,
            (Event::Move(p), Event::Move(q)) => doubles_equal(p.distance_x, q.distance_x)
                && doubles_equal(p.distance_y, q.distance_y),
            (Event::Left(p), Event::Left(q)) => p.id == q.id,
            (Event::Shoot(p), Event::Shoot(q)) => match (&p.direction, &q.direction) {
                (None, None) => true,
                (Some(d), Some(e)) => d.is_same(e),
                _ => false,
            },
            _ => false,
        }
    }
}

impl GameEvent {
    /// Compares two game events as the protocol does.
    pub fn is_same(&self, other: &GameEvent) -> (r: bool)
        ensures
            r == same_game_event(*self, *other),
    {
        match (&self.event, &other.event) {
            (None, None) => true,
            (Some(x), Some(y)) => x.is_same(y),
            _ => false,
        }
    }
}

/// The protocol's equality of game events is symmetric.
pub proof fn lemma_same_game_event_symmetric(a: GameEvent, b: GameEvent)
    ensures
        same_game_event(a, b) == same_game_event(b, a),
{
}

/// Two events are the same event only when they are of one kind and their payloads agree
/// field by field: every string by its text, every double as an `f64`. So two movements
/// are the same only when both their x and their y distances are equal.
pub proof fn lemma_same_event_agrees_on_every_field(a: Event, b: Event)
    requires
        same_event(a, b),
    ensures
        match (a, b) {
            (Event::Joined(p), Event::Joined(q)) => p.id@ == q.id@ && p.username@ == q.username@,
            (Event::Move(p), Event::Move(q)) => float_eq(p.distance_x, q.distance_x) && float_eq(
                p.distance_y,
                q.distance_y,
            ),
            (Event::Left(p), Event::Left(q)) => p.id@ == q.id@,
            (Event::Shoot(p), Event::Shoot(q)) => (p.direction is Some) == (q.direction is Some)
                && (p.direction is Some ==> float_eq(
                p.direction->0.direction_x,
                q.direction->0.direction_x,
            ) && float_eq(p.direction->0.direction_y, q.direction->0.direction_y) && float_eq(
                p.direction->0.direction_z,
                q.direction->0.direction_z,
            )),
            _ => false,
        },
{
}

/// Two events of one kind whose payloads agree field by field (strings by their text,
/// doubles as `f64`) are the same event.
pub proof fn lemma_agreeing_fields_make_same_event(a: Event, b: Event)
    requires
        match (a, b) {
            (Event::Joined(p), Event::Joined(q)) => p.id@ == q.id@ && p.username@ == q.username@,
            (Event::Move(p), Event::Move(q)) => float_eq(p.distance_x, q.distance_x) && float_eq(
                p.distance_y,
                q.distance_y,
            ),
            (Event::Left(p), Event::Left(q)) => p.id@ == q.id@,
            (Event::Shoot(p), Event::Shoot(q)) => (p.direction is Some) == (q.direction is Some)
                && (p.direction is Some ==> float_eq(
                p.direction->0.direction_x,
                q.direction->0.direction_x,
            ) && float_eq(p.direction->0.direction_y, q.direction->0.direction_y) && float_eq(
                p.direction->0.direction_z,
                q.direction->0.direction_z,
            )),
            _ => false,
        },
    ensures
        same_event(a, b),
{
}

} // verus!
