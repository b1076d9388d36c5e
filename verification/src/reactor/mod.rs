//! The reactor over an edge-triggered readiness multiplexer.

pub mod epoll;
pub mod intr;
pub mod socket_impl;
