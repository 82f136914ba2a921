//! The server's command-line parameters.

use vstd::prelude::*;
use vstd::string::*;

verus! {

/// Where the server listens.
#[derive(Debug)]
pub struct ServerParams {
    /// IP without port. Default: 0.0.0.0
    pub host: String,
    /// Server port. Default 7777
    pub port: String,
}

impl Default for ServerParams {
    fn default() -> (p: Self)
        ensures
            p.host@ == "0.0.0.0"@,
            p.port@ == "7777"@,
    {
        ServerParams { host: String::from_str("0.0.0.0"), port: String::from_str("7777") }
    }
}

impl ServerParams {
    /// The address to listen on: `host:port`.
    pub fn address(&self) -> (a: String)
        ensures
            a@ == self.host@ + ":"@ + self.port@,
    {
        let mut a = self.host.clone();
        a.append(":");
        a.append(self.port.as_str());
        a
    }
}

} // verus!
