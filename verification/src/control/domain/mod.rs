//! Domain work behind the control plane: the guest configuration directories.

pub mod browse;
pub mod browse_laws;
pub mod config_laws;
pub mod pool;
pub mod pool_laws;
pub mod save;
pub mod scan;
pub mod scan_laws;
pub mod startup;
