//! Internet protocols and the resolver.

pub mod resolver;
pub mod udp;
