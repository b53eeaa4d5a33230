//! The kinds of client input.

use vstd::prelude::*;

use crate::input_messages::{Move, PlayerJoined, PlayerLeft, Shoot};

verus! {

/// What a client's datagram asks of the server.
#[derive(Clone, Debug, PartialEq)]
pub enum Event {
    Joined(PlayerJoined),
    Move(Move),
    Left(PlayerLeft),
    Shoot(Shoot),
}

} // verus!
