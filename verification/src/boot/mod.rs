//! What a guest finds in memory when it boots.

pub mod mptable;
