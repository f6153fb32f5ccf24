//! What the host is configured with: server settings and the list of
//! locations, each a path prefix and the module file that serves it.

use vstd::prelude::*;
use std::path::PathBuf;
use std::time::Duration;

verus! {

/// `std::path::PathBuf`, carried through as an opaque value.
#[verifier::external_type_specification]
#[verifier::external_body]
pub struct ExPathBuf(PathBuf);

/// `Clone::clone` of `std::path::PathBuf`: the copy is the same path.
pub assume_specification[ <PathBuf as Clone>::clone ](path: &PathBuf) -> (copy: PathBuf)
    ensures
        copy == *path,
;

/// One configured route: requests under `prefix` go to the module at `ingot`.
#[derive(Clone)]
pub struct Location {
    pub prefix: String,
    pub ingot: PathBuf,
}

/// The server's settings.
#[derive(Clone)]
pub struct ServerConfig {
    pub keep_alive: Option<Duration>,
    pub read_timeout: Option<Duration>,
    pub write_timeout: Option<Duration>,
    pub threads: usize,
    pub locations: Vec<Location>,
}

impl Default for ServerConfig {
    /// No timeouts, one worker thread, no locations.
    fn default() -> (config: ServerConfig)
        ensures
            config.keep_alive.is_none(),
            config.read_timeout.is_none(),
            config.write_timeout.is_none(),
            config.threads == 1,
            config.locations@ == Seq::<Location>::empty(),
    {
        ServerConfig {
            keep_alive: None,
            read_timeout: None,
            write_timeout: None,
            threads: 1,
            locations: Vec::new(),
        }
    }
}

impl ServerConfig {
    /// Appends a location. Locations are registered in this order, so an
    /// earlier one takes precedence over a later one.
    pub fn add_location(&mut self, location: Location)
        ensures
            final(self).locations@ == old(self).locations@.push(location),
            final(self).keep_alive == old(self).keep_alive,
            final(self).read_timeout == old(self).read_timeout,
            final(self).write_timeout == old(self).write_timeout,
            final(self).threads == old(self).threads,
    {
        self.locations.push(location);
    }
}

} // verus!
