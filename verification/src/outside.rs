//! Declarations of the outside crates' types that the library's signatures
//! carry: DER-encoded certificates and keys, and the TLS library's server
//! configuration.

use vstd::prelude::*;

verus! {

#[verifier::external_type_specification]
#[verifier::external_body]
pub struct ExCertificateDer<'a>(rustls_pki_types::CertificateDer<'a>);

#[verifier::external_type_specification]
#[verifier::external_body]
pub struct ExPrivateKeyDer<'a>(rustls_pki_types::PrivateKeyDer<'a>);

#[verifier::external_type_specification]
#[verifier::external_body]
pub struct ExPrivatePkcs8KeyDer<'a>(rustls_pki_types::PrivatePkcs8KeyDer<'a>);

#[verifier::external_type_specification]
#[verifier::external_body]
pub struct ExServerConfig(tokio_rustls::rustls::ServerConfig);

} // verus!
