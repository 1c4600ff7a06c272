//! The server's configuration, fixed at startup and shared read-only.

use vstd::prelude::*;

verus! {

/// What the server was started with.
#[derive(Clone, Debug)]
pub struct ServerConfig {
    /// The address the server is reached at.
    pub address: String,
    /// The port the server is reached at.
    pub port: u16,
    /// The name of the document file.
    pub filename: String,
    /// When set, the document is not recompiled and `filename` itself is
    /// served; otherwise the compiler's fixed output file is.
    pub no_recompile: bool,
}

} // verus!
