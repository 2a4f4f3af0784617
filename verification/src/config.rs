//! The immutable configuration one server process runs with.

use vstd::prelude::*;

verus! {

/// What the server serves and where: the served directory, the index file
/// name, the optional not-found file name, and the address to bind. All
/// fields are byte strings but the address, which only the code around the
/// library reads. A `Config` is built once at startup and never changes;
/// every worker shares it read-only.
///
/// The caller is expected to have validated that `dir` is an existing
/// directory holding `index` and, when set, `not_found`; the library does not
/// touch the filesystem and cannot check that itself.
pub struct Config {
    /// Path of the directory to be served.
    pub dir: Vec<u8>,
    /// Index file name in `dir`, served for the root path `/`.
    pub index: Vec<u8>,
    /// Not-found file name in `dir`. If `None`, a plain 404 response is
    /// returned for a missing path.
    pub not_found: Option<Vec<u8>>,
    /// Address the listener binds to.
    pub address: String,
}

impl Config {
    /// Builds the configuration from its parts.
    pub fn new(dir: Vec<u8>, index: Vec<u8>, not_found: Option<Vec<u8>>, address: String) -> (c:
        Config)
        ensures
            c.dir == dir,
            c.index == index,
            c.not_found == not_found,
            c.address == address,
    {
        Config { dir, index, not_found, address }
    }
}

} // verus!
