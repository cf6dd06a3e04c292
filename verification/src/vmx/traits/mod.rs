//! Abstractions over kinds of VMs.

pub mod context;
