//! Thin wrapper around the session registry for management callers.

use crate::registry::SessionRegistry;
use vstd::prelude::*;

verus! {

/// Manager over the shared session registry.
pub struct SessionManager {
    /// The registry the manager reports on.
    pub registry: SessionRegistry,
}

impl SessionManager {
    /// Wrap a registry.
    pub fn new(registry: SessionRegistry) -> (m: SessionManager)
        ensures
            m.registry == registry,
    {
        SessionManager { registry }
    }

    /// How many sessions are registered.
    pub fn session_count(&self) -> (n: usize)
        ensures
            n == self.registry.entries@.len(),
    {
        self.registry.session_count()
    }
}

} // verus!
