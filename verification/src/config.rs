//! Proxy configuration: the upstream base URL, the listening port, and the
//! blocked folders. Loaded once at startup and shared read-only by every
//! handler; nothing in the library mutates it.

use vstd::prelude::*;

verus! {

/// The configuration the proxy runs with.
#[derive(Clone, Debug)]
pub struct Config {
    /// Base URL of the upstream origin; the inbound path and query are
    /// appended to it verbatim.
    pub target: String,
    /// Port the proxy listens on.
    pub port: u16,
    /// Folder names whose paths are forbidden.
    pub blocked_folders: Vec<String>,
}

impl Default for Config {
    /// The defaults written into an example configuration: forward to a
    /// local server on port 8000, listen on 8080, and block `private`.
    fn default() -> (c: Config)
        ensures
            c.target@ == "http://localhost:8000"@,
            c.port == 8080,
            c.blocked_folders.deep_view() =~= seq!["private"@],
    {
        Config {
            target: "http://localhost:8000".to_owned(),
            port: 8080,
            blocked_folders: vec!["private".to_owned()],
        }
    }
}

} // verus!
