//! Local print bridge: the verified core of a machine-resident helper
//! that accepts print jobs for a host printer over a dual-protocol
//! loopback server backed by a self-signed certificate.
//!
//! The dispatch engine lives in [`dispatch`] and [`raster`], the
//! device profile codec in [`profile`], the printer directory in
//! [`printers`], the trust gateway in [`trust`] and [`certs`], the
//! listener logic in [`requests`], and the tool provisioner in
//! [`provision`]. The process shell around this core performs the
//! actual I/O and hands plain values in and out.

pub mod certs;
pub mod diagnostics;
pub mod dispatch;
pub mod logbuf;
pub mod paths;
pub mod printers;
pub mod profile;
pub mod provision;
pub mod raster;
pub mod requests;
pub mod text;
pub mod trust;

use vstd::prelude::*;

verus! {

/// Loopback port of the TLS-terminated listener.
pub const HTTPS_PORT: u16 = 9847;

/// Loopback port of the plaintext listener.
pub const HTTP_PORT: u16 = 9848;

/// Application state shared across the desktop shell.
pub struct AppState {
    /// Whether the listeners have been started.
    pub server_running: bool,
    /// The identifier of the last dispatched job, when any.
    pub last_print_job: Option<String>,
}

impl Default for AppState {
    /// A fresh state: no server yet, no job dispatched.
    fn default() -> (r: AppState)
        ensures
            r.server_running == false,
            r.last_print_job is None,
    {
        AppState { server_running: false, last_print_job: None }
    }
}

} // verus!
