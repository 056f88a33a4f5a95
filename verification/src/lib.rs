//! Core of a locally-hosted real-time broadcast hub: browser clients exchange
//! JSON messages over persistent bidirectional connections, fronted by a
//! TLS-terminated HTTP listener that also serves a small set of embedded
//! web assets.
//!
//! This crate holds the verified logic: the connection registry and broadcast
//! relay, the leader security gate, the asset router, and the certificate
//! provisioning state machine. Transport, TLS, and the actual network calls
//! live outside, behind small trusted wrappers or in the unverified shell.

pub mod gate;
pub mod registry;
pub mod relay;
pub mod text;
pub mod assets;
pub mod certs;
pub mod config;

use vstd::prelude::*;

verus! {

/// Port the TLS listener binds on.
pub const HTTP_PORT: u64 = 8443;

/// Application name, used by the desktop shell.
pub const APP_NAME: &'static str = "PTrack";

} // verus!
