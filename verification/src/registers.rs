//! Host controller registers.

pub mod capability;
