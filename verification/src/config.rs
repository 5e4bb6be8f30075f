//! Where the server listens.

use crate::decimal::{decimal, push_decimal};
use vstd::prelude::*;
use vstd::string::StringExecFns;

verus! {

/// The address and port to bind.
#[derive(Debug, Clone, PartialEq, Eq)]
pub struct BindConfig {
    pub ip: String,
    pub port: u16,
}

/// A pair of keys, each in its textual form.
#[derive(Debug, Clone, PartialEq, Eq)]
pub struct KeyConfig {
    pub private_key: String,
    pub public_key: String,
}

/// The server's configuration.
#[derive(Debug, Clone, PartialEq, Eq)]
pub struct Config {
    pub bind: BindConfig,
}

/// The text `ip:port`, the port in decimal.
pub open spec fn socket_text(ip: Seq<char>, port: u16) -> Seq<char> {
    ip + seq![':'] + decimal(port as nat)
}

impl Config {
    /// The address to bind.
    pub fn get_bind_address(&self) -> (ip: &str)
        ensures
            ip@ == self.bind.ip@,
    {
        self.bind.ip.as_str()
    }

    /// The port to bind.
    pub fn get_bind_port(&self) -> (port: u16)
        ensures
            port == self.bind.port,
    {
        self.bind.port
    }

    /// Address and port as one text, `ip:port`.
    pub fn get_bind_socket(&self) -> (socket: String)
        ensures
            socket@ == socket_text(self.bind.ip@, self.bind.port),
    {
        let mut socket = self.bind.ip.clone();
        proof {
            reveal_strlit(":");
            assert(":"@ =~= seq![':']);
        }
        socket.append(":");
        push_decimal(&mut socket, self.bind.port);
        socket
    }
}

} // verus!
