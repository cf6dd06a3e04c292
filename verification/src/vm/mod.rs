//! Userspace side of a VM.

pub mod config;
pub mod events;
pub mod io_channel;
pub mod serial;
