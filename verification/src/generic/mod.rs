//! Protocols that are given by their numbers.

pub mod stream;
