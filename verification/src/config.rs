//! Saved client configuration. Reading and writing the configuration
//! file, and its JSON form, belong to the shell; the library only holds
//! the value.

use vstd::prelude::*;

verus! {

/// The configuration the client remembers between runs.
#[derive(Debug)]
pub struct ClientConfig {
    /// The connection URL to offer at the next startup.
    pub connection_url: String,
}

impl ClientConfig {
    /// A configuration remembering the given connection URL.
    pub fn new(connection_url: String) -> (r: ClientConfig)
        ensures
            r.connection_url@ == connection_url@,
    {
        ClientConfig { connection_url }
    }
}

} // verus!
