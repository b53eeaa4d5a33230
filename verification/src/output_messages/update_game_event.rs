//! The kinds of server output.

use vstd::prelude::*;

use crate::output_messages::{
    AddedPlayer, ChangedPlayerPosition, CreateBullet, RemovedPlayer, UpdateAllBullets,
};

verus! {

/// What an update tells the players.
#[derive(Clone, Debug, PartialEq)]
pub enum UpdateEvent {
    AddedPlayer(AddedPlayer),
    RemovedPlayer(RemovedPlayer),
    ChangedPlayerPosition(ChangedPlayerPosition),
    CreateBullet(CreateBullet),
    UpdateAllBullets(UpdateAllBullets),
}

} // verus!
