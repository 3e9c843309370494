//! Bootstrap layer for a request-routing service: TLS material loading and
//! context construction, transport launch decisions, accept-loop and dispatch
//! policy, and public-URL formatting, each with a verified contract.

pub mod config;
pub mod context;
pub mod error;
pub mod logger;
pub mod outside;
pub mod server;
pub mod tls;

pub use config::{Config, LoggerConfig, Port, SameSiteConfig, SslConfig, Verbosity, Website};
pub use context::Context;
pub use error::Error;

use vstd::prelude::*;

verus! {

/// The capability the server core asks of an application configuration type:
/// it can yield the server's own configuration view.
pub trait ServerConfigProvider {
    fn get_server_config(&self) -> &Config;
}

impl ServerConfigProvider for Config {
    fn get_server_config(&self) -> &Config {
        self
    }
}

/// Adds two numbers together.  A trivial example of a public function.
pub fn add(a: i32, b: i32) -> (r: i32)
    requires
        i32::MIN <= a + b <= i32::MAX,
    ensures
        r == a + b,
{
    a + b
}

} // verus!
