//! The shared application context: a cheaply shareable handle to the
//! application's configuration, safe for concurrent read access because it is
//! never mutated after construction.

use std::sync::Arc;

use vstd::prelude::*;

use crate::ServerConfigProvider;

verus! {

/// The application context handed to every component that needs the
/// configuration.
#[derive(Debug)]
pub struct Context<C: ServerConfigProvider> {
    pub config: Arc<C>,
}

impl<C: ServerConfigProvider> Context<C> {
    /// Wraps the application's configuration in a shareable context.
    pub fn new(config: C) -> (s: Self)
        ensures
            s.config == config,
    {
        Context { config: Arc::new(config) }
    }
}

} // verus!
