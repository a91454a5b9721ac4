//! The host-side probe of the management API.

pub mod checks;
pub mod host_probe;
pub mod http_probe;
pub mod json;
pub mod reply_laws;
pub mod runner;
pub mod runner_laws;
