//! The control plane: what a build serves, and the domain work behind it.

pub mod capability;
pub mod domain;
