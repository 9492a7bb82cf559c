//! The settings the server is started with.

use vstd::prelude::*;
use vstd::string::StringExecFns;

verus! {

/// What the server is started with.
#[derive(Debug)]
pub struct Args {
    /// The port to listen on.
    pub port: u16,
    /// Where the certificates are kept.
    pub cert_path: String,
}

impl Default for Args {
    fn default() -> (args: Args)
        ensures
            args.port == 8080,
            args.cert_path@ == ".certs"@,
    {
        Args { port: 8080, cert_path: String::from_str(".certs") }
    }
}

} // verus!
