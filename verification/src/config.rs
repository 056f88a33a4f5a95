//! Listener wiring decisions and startup configuration: request routing,
//! the save directory, the check-in body cap and acknowledgement, and the
//! bind address. The I/O around them — accepting connections, reading
//! bodies, environment and argument access — stays outside.

use vstd::prelude::*;

use crate::text::str_eq;

verus! {

/// Hard cap on a check-in body, in bytes; larger bodies are rejected before
/// the handler runs.
pub const CHECK_IN_BODY_CAP: usize = 1000000;

/// Where the listener sends a request.
#[derive(PartialEq, Eq, Structural, Clone, Copy, Debug)]
pub enum Route {
    /// Upgrade to a bidirectional frame channel and register the connection.
    WsUpgrade,
    /// The check-in ingestion endpoint.
    CheckIn,
    /// Everything else: the asset router.
    Asset,
}

/// The routing table: a GET of /ws upgrades, a POST of /check-in ingests,
/// and every other request is served as an asset.
pub open spec fn route_model(method: Seq<char>, path: Seq<char>) -> Route {
    if method == "GET"@ && path == "/ws"@ {
        Route::WsUpgrade
    } else if method == "POST"@ && path == "/check-in"@ {
        Route::CheckIn
    } else {
        Route::Asset
    }
}

/// Routes one request by method and path.
pub fn route_request(method: &str, path: &str) -> (r: Route)
    ensures
        r == route_model(method@, path@),
{
    if str_eq(method, "GET") && str_eq(path, "/ws") {
        Route::WsUpgrade
    } else if str_eq(method, "POST") && str_eq(path, "/check-in") {
        Route::CheckIn
    } else {
        Route::Asset
    }
}

/// The save directory configured once at startup: the first command-line
/// argument when one is given, the current working directory otherwise.
pub fn choose_save_dir(first_arg: Option<String>, current_dir: String) -> (r: String)
    ensures
        match first_arg {
            Some(arg) => r@ == arg@,
            None => r@ == current_dir@,
        },
{
    match first_arg {
        Some(arg) => arg,
        None => current_dir,
    }
}

/// Whether a check-in body of `len` bytes is accepted under the hard cap.
pub fn check_in_accepts(len: usize) -> (r: bool)
    ensures
        r == (len <= CHECK_IN_BODY_CAP),
{
    len <= CHECK_IN_BODY_CAP
}

/// The fixed plaintext acknowledgement of an accepted check-in body.
pub fn check_in_ack() -> (r: String)
    ensures
        r@ == "Data received!"@,
{
    "Data received!".to_owned()
}

/// The all-interfaces address the TLS listener binds on.
pub fn bind_address() -> (r: String)
    ensures
        r@ == "0.0.0.0:8443"@,
{
    "0.0.0.0:8443".to_owned()
}

} // verus!
