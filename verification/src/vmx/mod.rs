//! Hypervisor core.

pub mod compat;
pub mod cow;
pub mod devices;
pub mod dr_hw;
pub mod dr_watch;
pub mod ept;
pub mod events;
pub mod exit_record;
pub mod exits;
pub mod handler;
pub mod memory;
pub mod msr;
pub mod page_map;
pub mod registers;
pub mod state;
pub mod traits;
pub mod vm;
pub mod vmcs;
