//! Decisions of the Axvisor control plane, free of input and output.

pub mod bringup;
pub mod control;
pub mod guest;
pub mod http;
pub mod io_mpx;
pub mod manager;
pub mod order;
pub mod probe;
pub mod report;
pub mod text;
pub mod text_laws;
pub mod vm_pool;
pub mod vm_pool_laws;
