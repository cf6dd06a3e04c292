//! Kinds of VMs.

pub mod forked;
pub mod laws;
pub mod pages;
pub mod parent;
pub mod root;
