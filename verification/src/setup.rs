//! Start-up decisions: which side this peer plays, where it listens, and
//! whether it connects out.

use vstd::prelude::*;
use crate::network::NetParams;

verus! {

/// A peer plays the server when its first command-line argument (after the
/// program name) is `server`.
pub fn is_server_from_args(args: &Vec<String>) -> (b: bool)
    ensures
        b == (args@.len() > 1 && args@[1]@ == "server"@),
{
    if args.len() > 1 {
        let server = "server".to_owned();
        args[1] == server
    } else {
        false
    }
}

/// The address a peer listens on: the server on the well-known port, the
/// client on any free port.
pub fn bind_address(is_server: bool) -> (a: &'static str)
    ensures
        a@ == if is_server { "127.0.0.1:3456"@ } else { "0.0.0.0:0"@ },
{
    if is_server {
        "127.0.0.1:3456"
    } else {
        "0.0.0.0:0"
    }
}

/// The address a client connects to.
pub fn server_address() -> (a: &'static str)
    ensures
        a@ == "127.0.0.1:3456"@,
{
    "127.0.0.1:3456"
}

impl NetParams {
    /// The parameters a peer starts with: its side, frames counted from 0.
    pub fn new(is_server: bool) -> (p: NetParams)
        ensures
            p.is_server == is_server,
            p.first_frame == 0,
    {
        NetParams { is_server, first_frame: 0 }
    }

    /// Only a client opens a connection; the server waits for it.
    pub fn opens_connection(&self) -> (b: bool)
        ensures
            b == !self.is_server,
    {
        !self.is_server
    }
}

} // verus!
