//! Minimal server setting: the TCP port the listener binds to.

use vstd::prelude::*;

verus! {

/// Port configuration for the plain hello server.
pub struct Setting {
    port: u32,
}

impl Setting {
    /// The configured port.
    pub closed spec fn spec_port(&self) -> u32 {
        self.port
    }

    /// Builds a setting around an already-read port number; reading the
    /// configuration file itself is left to the caller.
    pub fn new(port: u32) -> (s: Setting)
        ensures
            s.spec_port() == port,
    {
        Setting { port }
    }

    pub fn get_port(&self) -> (p: u32)
        ensures
            p == self.spec_port(),
    {
        self.port
    }
}

} // verus!
