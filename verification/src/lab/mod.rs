//! Experiments on forked VMs.

pub mod bash;
pub mod rng;
pub mod time;
