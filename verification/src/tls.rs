//! TLS material loading and server-context construction: PEM-encoded
//! certificate chains and PKCS#8 private keys are parsed from bytes the caller
//! read, checked for presence, and turned into a reusable server-side TLS
//! configuration.

use vstd::prelude::*;

use crate::error::{Error, IoErrorKind};

verus! {


/// What parsing PEM-encoded certificates from the given bytes yields: the
/// number of certificate records, or `None` when a malformed record stops the
/// parse.
pub uninterp spec fn cert_parse(data: Seq<u8>) -> Option<nat>;

/// What parsing PEM-encoded PKCS#8 private keys from the given bytes yields:
/// the number of key records, or `None` when a malformed record stops the
/// parse.
pub uninterp spec fn key_parse(data: Seq<u8>) -> Option<nat>;

/// Relies on `rustls_pemfile::certs`: the certificates parsed out of a byte
/// slice depend on the bytes alone, and collecting stops at the first
/// malformed record.
#[verifier::external_body]
fn pem_certs(data: &Vec<u8>) -> (r: Result<Vec<rustls_pki_types::CertificateDer<'static>>, ()>)
    ensures
        match cert_parse(data@) {
            Some(n) => r is Ok && r->Ok_0@.len() == n,
            None => r is Err,
        },
{
    let mut reader = data.as_slice();
    match rustls_pemfile::certs(&mut reader).collect::<Result<Vec<_>, std::io::Error>>() {
        Ok(certs) => Ok(certs),
        Err(_) => Err(()),
    }
}

/// Relies on `rustls_pemfile::pkcs8_private_keys`: the PKCS#8 keys parsed out
/// of a byte slice depend on the bytes alone, and collecting stops at the
/// first malformed record.
#[verifier::external_body]
fn pem_pkcs8_keys(data: &Vec<u8>) -> (r: Result<
    Vec<rustls_pki_types::PrivatePkcs8KeyDer<'static>>,
    (),
>)
    ensures
        match key_parse(data@) {
            Some(n) => r is Ok && r->Ok_0@.len() == n,
            None => r is Err,
        },
{
    let mut reader = data.as_slice();
    match rustls_pemfile::pkcs8_private_keys(&mut reader).collect::<Result<Vec<_>, std::io::Error>>(
    ) {
        Ok(keys) => Ok(keys),
        Err(_) => Err(()),
    }
}

/// Relies on `rustls_pki_types::PrivateKeyDer::from`: wraps a PKCS#8 key as a
/// general private key.
#[verifier::external_body]
fn into_private_key(key: rustls_pki_types::PrivatePkcs8KeyDer<'static>) -> (r:
    rustls_pki_types::PrivateKeyDer<'static>)
{
    rustls_pki_types::PrivateKeyDer::from(key)
}

/// Relies on rustls's `ServerConfig::builder`, `with_no_client_auth` and
/// `with_single_cert`: builds a server-authentication-only TLS configuration
/// from the chain and key, or describes why they cannot be paired.
#[verifier::external_body]
fn build_server_context(
    certs: Vec<rustls_pki_types::CertificateDer<'static>>,
    key: rustls_pki_types::PrivateKeyDer<'static>,
) -> (r: Result<tokio_rustls::rustls::ServerConfig, String>)
{
    match tokio_rustls::rustls::ServerConfig::builder().with_no_client_auth().with_single_cert(
        certs,
        key,
    ) {
        Ok(config) => Ok(config),
        Err(e) => Err(e.to_string()),
    }
}

/// An ordered certificate chain with at least one record, and exactly one
/// private key.
#[derive(Debug)]
pub struct TlsMaterial {
    pub certs: Vec<rustls_pki_types::CertificateDer<'static>>,
    pub key: rustls_pki_types::PrivateKeyDer<'static>,
}

impl TlsMaterial {
    /// The invariant of loaded material: the chain is never empty.
    pub open spec fn wf(&self) -> bool {
        self.certs@.len() >= 1
    }
}

/// How loading TLS material from the given inputs must end: `None` stands for
/// bytes that could not be read because the path did not exist.
pub open spec fn spec_load_outcome(cert_data: Option<Seq<u8>>, key_data: Option<Seq<u8>>) -> Result<
    nat,
    IoErrorKind,
> {
    match cert_data {
        Option::None => Result::Err(IoErrorKind::NotFound),
        Option::Some(cd) => match cert_parse(cd) {
            Option::None => Result::Err(IoErrorKind::InvalidInput),
            Option::Some(n_certs) => {
                if n_certs == 0 {
                    Result::Err(IoErrorKind::InvalidData)
                } else {
                    match key_data {
                        Option::None => Result::Err(IoErrorKind::NotFound),
                        Option::Some(kd) => match key_parse(kd) {
                            Option::None => Result::Err(IoErrorKind::InvalidData),
                            Option::Some(n_keys) => {
                                if n_keys == 0 {
                                    Result::Err(IoErrorKind::NotFound)
                                } else {
                                    Result::Ok(n_certs)
                                }
                            },
                        },
                    }
                }
            },
        },
    }
}

/// For inputs read from existing paths whose bytes hold at least one
/// certificate record and at least one key record, the loader succeeds, and
/// the material's chain holds exactly as many certificates as the bytes do.
pub proof fn lemma_loader_counts(cert_data: Seq<u8>, key_data: Seq<u8>)
    requires
        cert_parse(cert_data) is Some,
        cert_parse(cert_data)->Some_0 >= 1,
        key_parse(key_data) is Some,
        key_parse(key_data)->Some_0 >= 1,
    ensures
        spec_load_outcome(Option::Some(cert_data), Option::Some(key_data)) == Result::<
            nat,
            IoErrorKind,
        >::Ok(cert_parse(cert_data)->Some_0),
{
}

/// With no certificate record the loader fails with an invalid-data error;
/// with certificates but no key record it fails with a not-found error.
pub proof fn lemma_loader_empty(cert_data: Seq<u8>, key_data: Seq<u8>)
    ensures
        cert_parse(cert_data) == Option::Some(0nat) ==> spec_load_outcome(
            Option::Some(cert_data),
            Option::Some(key_data),
        ) == Result::<nat, IoErrorKind>::Err(IoErrorKind::InvalidData),
        (cert_parse(cert_data) is Some && cert_parse(cert_data)->Some_0 >= 1 && key_parse(key_data)
            == Option::Some(0nat)) ==> spec_load_outcome(
            Option::Some(cert_data),
            Option::Some(key_data),
        ) == Result::<nat, IoErrorKind>::Err(IoErrorKind::NotFound),
{
}

/// A nonexistent certificate or key path fails with a path-not-found error,
/// whatever the other input holds: nothing is parsed first.
pub proof fn lemma_missing_path(cert_data: Option<Seq<u8>>, key_data: Option<Seq<u8>>)
    ensures
        spec_load_outcome(Option::None, key_data) == Result::<nat, IoErrorKind>::Err(
            IoErrorKind::NotFound,
        ),
        (cert_data is Some && cert_parse(cert_data->Some_0) is Some && cert_parse(
            cert_data->Some_0,
        )->Some_0 >= 1) ==> spec_load_outcome(cert_data, Option::None) == Result::<
            nat,
            IoErrorKind,
        >::Err(IoErrorKind::NotFound),
{
}

/// Parses a certificate chain out of PEM-encoded bytes; fails when a record is
/// malformed or no certificate is found.
pub fn parse_certs(data: &Vec<u8>) -> (r: Result<
    Vec<rustls_pki_types::CertificateDer<'static>>,
    Error,
>)
    ensures
        match cert_parse(data@) {
            Option::Some(n) => {
                if n == 0 {
                    r is Err && r->Err_0.is_io_kind(IoErrorKind::InvalidData)
                } else {
                    r is Ok && r->Ok_0@.len() == n
                }
            },
            Option::None => r is Err && r->Err_0.is_io_kind(IoErrorKind::InvalidInput),
        },
{
    match pem_certs(data) {
        Ok(certs) => {
            if certs.len() == 0 {
                Err(
                    Error::IoError {
                        kind: IoErrorKind::InvalidData,
                        message: "no certs found".to_owned(),
                    },
                )
            } else {
                Ok(certs)
            }
        },
        Err(_) => Err(
            Error::IoError { kind: IoErrorKind::InvalidInput, message: "invalid cert".to_owned() },
        ),
    }
}

/// Parses the first PKCS#8 private key out of PEM-encoded bytes; fails when a
/// record is malformed or no key is found.
pub fn parse_key(data: &Vec<u8>) -> (r: Result<rustls_pki_types::PrivateKeyDer<'static>, Error>)
    ensures
        match key_parse(data@) {
            Option::Some(n) => {
                if n == 0 {
                    r is Err && r->Err_0.is_io_kind(IoErrorKind::NotFound)
                } else {
                    r is Ok
                }
            },
            Option::None => r is Err && r->Err_0.is_io_kind(IoErrorKind::InvalidData),
        },
{
    match pem_pkcs8_keys(data) {
        Ok(mut keys) => {
            if keys.len() == 0 {
                Err(
                    Error::IoError {
                        kind: IoErrorKind::NotFound,
                        message: "no keys found".to_owned(),
                    },
                )
            } else {
                let first = keys.remove(0);
                Ok(into_private_key(first))
            }
        },
        Err(_) => Err(
            Error::IoError {
                kind: IoErrorKind::InvalidData,
                message: "error reading keys".to_owned(),
            },
        ),
    }
}

/// Loads TLS material from the bytes of the certificate and key files; `None`
/// stands for a path that did not exist, and fails with a path-not-found error
/// before anything is parsed.
pub fn load_tls_material(cert_data: Option<Vec<u8>>, key_data: Option<Vec<u8>>) -> (r: Result<
    TlsMaterial,
    Error,
>)
    ensures
        match spec_load_outcome(
            match cert_data {
                Option::Some(ref cd) => Option::Some(cd@),
                Option::None => Option::None,
            },
            match key_data {
                Option::Some(ref kd) => Option::Some(kd@),
                Option::None => Option::None,
            },
        ) {
            Result::Ok(n_certs) => {
                &&& r is Ok
                &&& r->Ok_0.wf()
                &&& r->Ok_0.certs@.len() == n_certs
            },
            Result::Err(kind) => r is Err && r->Err_0.is_io_kind(kind),
        },
{
    let cert_bytes = match cert_data {
        Some(cd) => cd,
        None => {
            return Err(
                Error::IoError {
                    kind: IoErrorKind::NotFound,
                    message: "Path not found".to_owned(),
                },
            );
        },
    };
    let certs = match parse_certs(&cert_bytes) {
        Ok(certs) => certs,
        Err(e) => {
            return Err(e);
        },
    };
    let key_bytes = match key_data {
        Some(kd) => kd,
        None => {
            return Err(
                Error::IoError {
                    kind: IoErrorKind::NotFound,
                    message: "Path not found".to_owned(),
                },
            );
        },
    };
    let key = match parse_key(&key_bytes) {
        Ok(key) => key,
        Err(e) => {
            return Err(e);
        },
    };
    Ok(TlsMaterial { certs, key })
}

/// Builds the server-side TLS context from the bytes of the certificate and
/// key files: loads the material, then pairs the chain with the key.  Only a
/// chain/key pairing the TLS library rejects turns a successful load into an
/// error, and that error is a TLS-configuration error.
pub fn create_tls_config(cert_data: Option<Vec<u8>>, key_data: Option<Vec<u8>>) -> (r: Result<
    tokio_rustls::rustls::ServerConfig,
    Error,
>)
    ensures
        match spec_load_outcome(
            match cert_data {
                Option::Some(ref cd) => Option::Some(cd@),
                Option::None => Option::None,
            },
            match key_data {
                Option::Some(ref kd) => Option::Some(kd@),
                Option::None => Option::None,
            },
        ) {
            Result::Ok(_) => r is Ok || (r is Err && r->Err_0 is TlsConfigError),
            Result::Err(kind) => r is Err && r->Err_0.is_io_kind(kind),
        },
{
    let material = match load_tls_material(cert_data, key_data) {
        Ok(material) => material,
        Err(e) => {
            return Err(e);
        },
    };
    match build_server_context(material.certs, material.key) {
        Ok(context) => Ok(context),
        Err(e) => Err(Error::TlsConfigError(e)),
    }
}

} // verus!
