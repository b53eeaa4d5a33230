//! What the server knows of a player's connection.

use vstd::prelude::*;

use crate::address::SocketAddress;

verus! {

/// The address that a player's datagrams come from and that updates are sent to.
#[derive(Clone, Copy, Debug, PartialEq, Eq, Structural)]
pub struct PlayerServerInfo {
    pub addr: SocketAddress,
}

} // verus!
