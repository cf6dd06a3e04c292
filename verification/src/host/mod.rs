//! The host side: what the kernel module decides around the hypervisor core.

pub mod fd;
pub mod instruction_counter;
pub mod ioctl;
pub mod machine;
pub mod mmap;
