//! Network addresses of players, as plain values.

use vstd::prelude::*;

verus! {

/// The address of a UDP peer: the same values that tell two socket addresses apart.
///
/// An IPv4 address is its four octets in network order as one integer; an IPv6 address is
/// its sixteen octets in network order, with its flow label and scope id.
#[derive(Clone, Copy, Debug, PartialEq, Eq, Structural, Hash)]
pub enum SocketAddress {
    V4 { ip: u32, port: u16 },
    V6 { ip: u128, port: u16, flowinfo: u32, scope_id: u32 },
}

} // verus!
