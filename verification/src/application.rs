//! The in-memory channel backend: a ring buffer shared through a mutex and
//! a pair of condition variables.

pub mod channel;
