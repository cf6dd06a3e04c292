//! Bedrock: the logic of a deterministic hypervisor.

pub mod boot;
pub mod bytes;
pub mod host;
pub mod lab;
pub mod text;
pub mod vm;
pub mod vmx;
