//! Credential values parsed from PEM bytes: the certificate chain and the
//! private key, together with the fixed two-encoding fallback that selects
//! the key.

use vstd::prelude::*;
use crate::pem::extract_certificates;
use crate::pem::extract_pkcs8_keys;
use crate::pem::extract_rsa_keys;
use crate::pem::pem_certificates;
use crate::pem::pem_pkcs8_keys;
use crate::pem::pem_rsa_keys;

verus! {

/// Why a certificate chain could not be loaded.
#[derive(Clone, Copy, Debug, PartialEq, Eq, Structural)]
pub enum CertificateLoadError {
    /// The credential file could not be opened or read.
    Unreadable,
    /// The bytes yielded no parseable certificate record.
    NoCertificateFound,
}

/// Why a private key could not be loaded.
#[derive(Clone, Copy, Debug, PartialEq, Eq, Structural)]
pub enum PrivateKeyLoadError {
    /// The credential file could not be opened or read.
    Unreadable,
    /// Neither supported encoding yielded a usable key.
    NoKeyFound,
}

/// The two supported private-key encoding families, in the fixed order in
/// which the loader attempts them: PKCS#8 always first, PKCS#1 second.
#[derive(Clone, Copy, Debug, PartialEq, Eq, Structural)]
pub enum KeyEncoding {
    /// PKCS#8, the first encoding attempted.
    Pkcs8,
    /// PKCS#1 (RSA), the second encoding attempted.
    Pkcs1,
}

/// An ordered, non-empty sequence of DER-encoded certificate records,
/// leaf first.
pub struct CertificateChain {
    pub(crate) records: Vec<Vec<u8>>,
}

impl View for CertificateChain {
    type V = Seq<Seq<u8>>;

    closed spec fn view(&self) -> Seq<Seq<u8>> {
        self.records.deep_view()
    }
}

impl CertificateChain {
    /// A chain is well formed when it holds at least one record.
    pub open spec fn well_formed(&self) -> bool {
        self@.len() > 0
    }

    /// Build a chain directly from DER records; rejects an empty list.
    pub fn new(records: Vec<Vec<u8>>) -> (r: Result<CertificateChain, CertificateLoadError>)
        ensures
            match r {
                Ok(chain) => chain@ == records.deep_view() && chain.well_formed(),
                Err(e) => records@.len() == 0 && e == CertificateLoadError::NoCertificateFound,
            },
    {
        if records.len() > 0 {
            Ok(CertificateChain { records })
        } else {
            Err(CertificateLoadError::NoCertificateFound)
        }
    }

    /// The number of records in the chain.
    pub fn len(&self) -> (n: usize)
        ensures
            n == self@.len(),
    {
        self.records.len()
    }

    /// The DER bytes of the record at position `i` (0 is the leaf).
    pub fn record(&self, i: usize) -> (r: &Vec<u8>)
        requires
            i < self@.len(),
        ensures
            r@ == self@[i as int],
    {
        &self.records[i]
    }
}

/// One DER-encoded private key, tagged by the encoding family it was
/// selected from.
pub struct PrivateKey {
    encoding: KeyEncoding,
    der: Vec<u8>,
}

impl PrivateKey {
    /// The encoding family the key was selected from.
    pub closed spec fn encoding_model(&self) -> KeyEncoding {
        self.encoding
    }

    /// The DER bytes of the key.
    pub closed spec fn der_model(&self) -> Seq<u8> {
        self.der@
    }

    /// Build a key value directly from its parts.
    pub fn new(encoding: KeyEncoding, der: Vec<u8>) -> (k: PrivateKey)
        ensures
            k.encoding_model() == encoding,
            k.der_model() == der@,
    {
        PrivateKey { encoding, der }
    }

    /// The encoding family the key was selected from.
    pub fn encoding(&self) -> (r: KeyEncoding)
        ensures
            r == self.encoding_model(),
    {
        self.encoding
    }

    /// The DER bytes of the key.
    pub fn der_bytes(&self) -> (r: &Vec<u8>)
        ensures
            r@ == self.der_model(),
    {
        &self.der
    }
}

/// The chain that a PEM byte stream yields: every certificate record, in
/// stream order, provided no section is malformed and there is at least
/// one record.
pub open spec fn spec_certificate_chain(bytes: Seq<u8>) -> Result<Seq<Seq<u8>>, CertificateLoadError> {
    match pem_certificates(bytes) {
        Some(records) => if records.len() > 0 {
            Ok(records)
        } else {
            Err(CertificateLoadError::NoCertificateFound)
        },
        None => Err(CertificateLoadError::NoCertificateFound),
    }
}

/// The first supported encoding (PKCS#8) yields at least one key.
pub open spec fn first_encoding_yields(bytes: Seq<u8>) -> bool {
    pem_pkcs8_keys(bytes) matches Some(keys) && keys.len() > 0
}

/// The second supported encoding (PKCS#1) yields at least one key.
pub open spec fn second_encoding_yields(bytes: Seq<u8>) -> bool {
    pem_rsa_keys(bytes) matches Some(keys) && keys.len() > 0
}

/// The key that the fixed fallback order selects from a PEM byte stream:
/// the first PKCS#8 key if that encoding yields one, else the first PKCS#1
/// key if that encoding does, else nothing. Later keys are ignored.
pub open spec fn spec_selected_key(bytes: Seq<u8>) -> Option<(KeyEncoding, Seq<u8>)> {
    if first_encoding_yields(bytes) {
        Some((KeyEncoding::Pkcs8, pem_pkcs8_keys(bytes)->Some_0[0]))
    } else if second_encoding_yields(bytes) {
        Some((KeyEncoding::Pkcs1, pem_rsa_keys(bytes)->Some_0[0]))
    } else {
        None
    }
}

/// Parse a certificate chain from PEM bytes, keeping file order.
pub fn parse_certificate_chain(bytes: &[u8]) -> (r: Result<CertificateChain, CertificateLoadError>)
    ensures
        match r {
            Ok(chain) => spec_certificate_chain(bytes@) == Ok::<Seq<Seq<u8>>, CertificateLoadError>(chain@)
                && chain.well_formed(),
            Err(e) => spec_certificate_chain(bytes@) == Err::<Seq<Seq<u8>>, CertificateLoadError>(e),
        },
{
    match extract_certificates(bytes) {
        Some(records) => {
            if records.len() > 0 {
                Ok(CertificateChain { records })
            } else {
                Err(CertificateLoadError::NoCertificateFound)
            }
        },
        None => Err(CertificateLoadError::NoCertificateFound),
    }
}

/// Select a private key from PEM bytes: PKCS#8 is attempted first, and only
/// when it yields no key are the same bytes retried as PKCS#1; the first
/// key of the first succeeding encoding wins.
pub fn parse_private_key(bytes: &[u8]) -> (r: Result<PrivateKey, PrivateKeyLoadError>)
    ensures
        match r {
            Ok(key) => spec_selected_key(bytes@)
                == Some((key.encoding_model(), key.der_model())),
            Err(e) => spec_selected_key(bytes@) is None
                && e == PrivateKeyLoadError::NoKeyFound,
        },
{
    if let Some(mut keys) = extract_pkcs8_keys(bytes) {
        if keys.len() > 0 {
            let der = keys.remove(0);
            return Ok(PrivateKey { encoding: KeyEncoding::Pkcs8, der });
        }
    }
    if let Some(mut keys) = extract_rsa_keys(bytes) {
        if keys.len() > 0 {
            let der = keys.remove(0);
            return Ok(PrivateKey { encoding: KeyEncoding::Pkcs1, der });
        }
    }
    Err(PrivateKeyLoadError::NoKeyFound)
}

/// When the first supported encoding yields a key, that key is selected:
/// what the second encoding would yield never decides the outcome.
pub proof fn lemma_first_encoding_wins(bytes: Seq<u8>)
    requires
        first_encoding_yields(bytes),
    ensures
        spec_selected_key(bytes) == Some((KeyEncoding::Pkcs8, pem_pkcs8_keys(bytes)->Some_0[0])),
{
}

/// The fallback works: a stream with no PKCS#8 key but at least one
/// PKCS#1 key still yields a selected key, from the second encoding.
pub proof fn lemma_second_encoding_suffices(bytes: Seq<u8>)
    requires
        !first_encoding_yields(bytes),
        second_encoding_yields(bytes),
    ensures
        spec_selected_key(bytes) == Some((KeyEncoding::Pkcs1, pem_rsa_keys(bytes)->Some_0[0])),
{
}

/// Selection is decided by the bytes alone, so a failed attempt leaves
/// nothing behind: retrying the same bytes reaches the same outcome.
pub proof fn lemma_selection_is_repeatable(first_try: Seq<u8>, retry: Seq<u8>)
    requires
        first_try == retry,
    ensures
        spec_selected_key(first_try) == spec_selected_key(retry),
        spec_certificate_chain(first_try) == spec_certificate_chain(retry),
{
}

} // verus!
