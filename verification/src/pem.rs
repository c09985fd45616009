//! Extraction of DER records from PEM byte streams.
//!
//! The parsing itself is done by `rustls_pemfile`; each extractor here is a
//! trusted wrapper around one of its functions. The outcome of each parse is
//! a function of the input bytes alone, so it is given a name that the
//! wrappers' contracts and the verified callers share.

use vstd::prelude::*;

verus! {

/// The outcome of extracting the CERTIFICATE sections of a PEM byte stream:
/// the DER contents of every such section, in stream order, or `None` when
/// some section is malformed.
pub uninterp spec fn pem_certificates(bytes: Seq<u8>) -> Option<Seq<Seq<u8>>>;

/// The outcome of extracting the PRIVATE KEY (PKCS#8) sections of a PEM
/// byte stream: the DER contents of every such section, in stream order, or
/// `None` when some section is malformed.
pub uninterp spec fn pem_pkcs8_keys(bytes: Seq<u8>) -> Option<Seq<Seq<u8>>>;

/// The outcome of extracting the RSA PRIVATE KEY (PKCS#1) sections of a PEM
/// byte stream: the DER contents of every such section, in stream order, or
/// `None` when some section is malformed.
pub uninterp spec fn pem_rsa_keys(bytes: Seq<u8>) -> Option<Seq<Seq<u8>>>;

/// Relies on `rustls_pemfile::certs`: it returns the DER contents of every
/// CERTIFICATE section of the input, in order, skipping sections of other
/// kinds, and fails only when a section is malformed; an input with no
/// certificate section yields an empty list, not an error.
#[verifier::external_body]
pub(crate) fn extract_certificates(bytes: &[u8]) -> (r: Option<Vec<Vec<u8>>>)
    ensures
        match r {
            Some(records) => pem_certificates(bytes@) == Some(records.deep_view()),
            None => pem_certificates(bytes@) is None,
        },
{
    let mut rd: &[u8] = bytes;
    rustls_pemfile::certs(&mut rd).ok()
}

/// Relies on `rustls_pemfile::pkcs8_private_keys`: it returns the DER
/// contents of every PRIVATE KEY (PKCS#8) section of the input, in order,
/// skipping sections of other kinds, and fails only when a section is
/// malformed; an input with no such section yields an empty list.
#[verifier::external_body]
pub(crate) fn extract_pkcs8_keys(bytes: &[u8]) -> (r: Option<Vec<Vec<u8>>>)
    ensures
        match r {
            Some(keys) => pem_pkcs8_keys(bytes@) == Some(keys.deep_view()),
            None => pem_pkcs8_keys(bytes@) is None,
        },
{
    let mut rd: &[u8] = bytes;
    rustls_pemfile::pkcs8_private_keys(&mut rd).ok()
}

/// Relies on `rustls_pemfile::rsa_private_keys`: it returns the DER
/// contents of every RSA PRIVATE KEY (PKCS#1) section of the input, in
/// order, skipping sections of other kinds, and fails only when a section
/// is malformed; an input with no such section yields an empty list.
#[verifier::external_body]
pub(crate) fn extract_rsa_keys(bytes: &[u8]) -> (r: Option<Vec<Vec<u8>>>)
    ensures
        match r {
            Some(keys) => pem_rsa_keys(bytes@) == Some(keys.deep_view()),
            None => pem_rsa_keys(bytes@) is None,
        },
{
    let mut rd: &[u8] = bytes;
    rustls_pemfile::rsa_private_keys(&mut rd).ok()
}

} // verus!
