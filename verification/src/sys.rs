//! The numbers by which the socket interface names address families, socket
//! types, protocols and resolver flags.

use vstd::prelude::*;

verus! {

/// No address family in particular.
pub const AF_UNSPEC: i32 = 0;

/// Internet protocol, version 4.
pub const AF_INET: i32 = 2;

/// Internet protocol, version 6.
pub const AF_INET6: i32 = 10;

/// A byte stream.
pub const SOCK_STREAM: i32 = 1;

/// Datagrams.
pub const SOCK_DGRAM: i32 = 2;

/// The user datagram protocol.
pub const IPPROTO_UDP: i32 = 17;

/// The resolved addresses are meant to be bound to, not connected to.
pub const AI_PASSIVE: i32 = 0x0001;

/// The service is a port number, not a name.
pub const AI_NUMERICSERV: i32 = 0x0400;

} // verus!
