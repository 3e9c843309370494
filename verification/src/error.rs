//! Error taxonomy of the library: configuration errors, I/O-class errors from
//! loading TLS material, TLS-configuration errors, URL-formatting errors, and
//! the structural error for a missing routing pipeline.

use vstd::prelude::*;

verus! {

/// The class of an I/O-style failure raised while loading TLS material.
#[derive(Debug, Clone, Copy, PartialEq, Eq, Structural)]
pub enum IoErrorKind {
    /// A path did not exist, or no record of the wanted kind was found.
    NotFound,
    /// The input was read but held no valid record of the wanted kind.
    InvalidData,
    /// A record was present but malformed.
    InvalidInput,
}

/// Library-wide error type.
#[derive(Debug)]
pub enum Error {
    /// A persisted application configuration could not be used; fatal to
    /// startup, surfaced to the caller before any listener binds.
    ConfigError(String),
    /// An I/O-class failure, with its class and a short description.
    IoError { kind: IoErrorKind, message: String },
    /// The TLS context could not be built from the loaded material; carries
    /// the TLS library's description of the mismatch.
    TlsConfigError(String),
    /// A public URL could not be formatted from the given parts.
    UrlFormatError { protocol: String, hostname: String, port: u16, cause: String },
    /// No routing pipeline was supplied before the server was built.
    MissingRouterFactory,
}

impl Error {
    /// True exactly when this is an I/O-class error of the given kind.
    pub open spec fn is_io_kind(&self, kind: IoErrorKind) -> bool {
        &&& self is IoError
        &&& self->IoError_kind == kind
    }

    /// Reports which I/O class this error carries, if it is an I/O-class error.
    pub fn io_kind(&self) -> (r: Option<IoErrorKind>)
        ensures
            match r {
                Some(k) => self is IoError && self->IoError_kind == k,
                None => !(self is IoError),
            },
    {
        match self {
            Error::IoError { kind, .. } => Some(*kind),
            _ => None,
        }
    }
}

} // verus!
