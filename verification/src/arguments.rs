//! The arguments of the program: which of the two roles to run, and the
//! addresses of that role.

use vstd::prelude::*;

verus! {

/// The arguments of one run.
#[derive(Debug, PartialEq, Eq)]
pub struct Args {
    pub command: Commands,
}

/// The role to run.
#[derive(Debug, PartialEq, Eq)]
pub enum Commands {
    /// The front: accepts TCP connections and is reached by the
    /// intermediary.
    Local {
        /// Where to listen for TCP connections.
        tcp_listen_address: String,
        /// Where to listen for the WebSockets of the intermediary.
        cloudflare_listen_address: String,
    },
    /// The back: dials the intermediary and forwards to the origin.
    Server {
        /// The address of the intermediary.
        cloudflare_server_address: String,
        /// The address of the origin.
        forward_address: String,
    },
}

} // verus!
