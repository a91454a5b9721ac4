//! Optional HTTP services hosted by Axvisor.
//!
//! The browser console and the VM management API are independent parts of a
//! build that may share one listener.

pub mod manifest;
pub mod web_ui;

use vstd::prelude::*;

verus! {

/// Where the listener binds unless it is told otherwise: the control plane
/// trusts whoever can reach it, so by default only the local host can.
pub const DEFAULT_BIND_ADDR: &'static str = "127.0.0.1:8080";

/// The configured address, or the default one.
pub open spec fn bind_addr_of(configured: Option<&str>) -> Seq<char> {
    match configured {
        Some(addr) => addr@,
        None => DEFAULT_BIND_ADDR@,
    }
}

/// A configured address is used as it is, whatever it is; without one the
/// listener is on the local host.
pub proof fn law_bind_addr(addr: &str)
    ensures
        bind_addr_of(Some(addr)) == addr@,
        bind_addr_of(None) == "127.0.0.1:8080"@,
{
}

/// Configured HTTP listener address, used by the startup access banner.
pub fn bind_addr<'a>(configured: Option<&'a str>) -> (r: &'a str)
    ensures
        r@ == bind_addr_of(configured),
{
    match configured {
        Some(addr) => addr,
        None => DEFAULT_BIND_ADDR,
    }
}

}
