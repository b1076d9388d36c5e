//! Core of an asynchronous I/O runtime for POSIX hosts: the per-descriptor
//! operation queues that a readiness multiplexer drives, and the signal
//! membership that is delivered through the same mechanism.
//!
//! The crate performs no system calls. Every function maps plain values to
//! plain values; the caller owns the descriptors, issues the kernel requests
//! that the functions hand back, and reports what the kernel answered.

pub mod error;
pub mod executor;
pub mod ops;
pub mod history;
pub mod generic;
pub mod ip;
pub mod kqueue;
pub mod reactor;
pub mod signal;
pub mod signal_set;
pub mod socket_impl;
pub mod sys;
pub mod timeout;
