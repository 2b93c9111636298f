//! The backend's TCP endpoint: the loopback address it serves on and the
//! URL the window is pointed at.
//!
//! The backend always listens on the loopback interface. Its port is either
//! the fixed well-known port (development, or when no free port could be
//! found) or an ephemeral port the operating system handed out; once chosen
//! it never changes for the life of the process.

use vstd::prelude::*;

use crate::strutil::spec_decimal;
use crate::strutil::decimal_string;

verus! {

/// The well-known port the backend serves on when none is allocated.
pub const DEFAULT_PORT: u16 = 4000;

/// The loopback address-and-port string the readiness probe connects to.
pub open spec fn spec_endpoint_address(port: u16) -> Seq<char> {
    "127.0.0.1:"@ + spec_decimal(port as nat)
}

/// The URL the window is navigated to once the backend is ready.
pub open spec fn spec_backend_url(port: u16) -> Seq<char> {
    "http://"@ + spec_endpoint_address(port)
}

/// The port the supervisor settles on: the ephemeral port the operating
/// system allocated if one was obtained, the well-known port otherwise.
pub open spec fn spec_chosen_port(allocated: Option<u16>) -> u16 {
    match allocated {
        Some(p) => p,
        None => DEFAULT_PORT,
    }
}

/// Settle on the port the backend will serve on.
pub fn choose_port(allocated: Option<u16>) -> (port: u16)
    ensures
        port == spec_chosen_port(allocated),
{
    match allocated {
        Some(p) => p,
        None => DEFAULT_PORT,
    }
}

/// Render the loopback address-and-port string for a port.
pub fn endpoint_address(port: u16) -> (s: String)
    ensures
        s@ == spec_endpoint_address(port),
{
    let mut s = "127.0.0.1:".to_owned();
    s.append(decimal_string(port as u64).as_str());
    s
}

/// Render the backend URL for a port.
pub fn backend_url(port: u16) -> (s: String)
    ensures
        s@ == spec_backend_url(port),
{
    let mut s = "http://".to_owned();
    s.append(endpoint_address(port).as_str());
    assert(s@ =~= spec_backend_url(port));
    s
}

} // verus!
