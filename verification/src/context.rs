//! The immutable TLS server context, built exactly once from a loaded
//! certificate chain and private key.
//!
//! Construction is delegated to `rustls`; whether it accepts a given
//! chain/key pairing is a function of their bytes alone, so that outcome is
//! given a name shared by the trusted wrapper and the verified caller. The
//! context disables client-certificate authentication and offers no way to
//! mutate it after construction.

use vstd::prelude::*;
use crate::credentials::CertificateChain;
use crate::credentials::PrivateKey;

verus! {

/// `rustls::ServerConfig`, opaque to the verifier; values of it are only
/// carried through to the runtime.
#[verifier::external_type_specification]
#[verifier::external_body]
pub struct ExServerConfig(rustls::ServerConfig);

/// Whether TLS server-context construction accepts the pairing of a
/// certificate chain (as DER records) and a private key (as DER bytes).
pub uninterp spec fn tls_pairing_accepted(chain: Seq<Seq<u8>>, key: Seq<u8>) -> bool;

/// Why a TLS server context could not be built.
pub struct TlsConfigError {
    /// What construction reported about the rejected material.
    pub detail: String,
}

/// Relies on `rustls::ServerConfig::builder` with safe defaults, no client
/// authentication, and a single certificate chain and key: construction
/// validates the key material and accepts or rejects the pairing from the
/// given bytes alone.
#[verifier::external_body]
fn make_server_config(chain: &CertificateChain, key: &PrivateKey) -> (r: Result<rustls::ServerConfig, String>)
    ensures
        r is Ok <==> tls_pairing_accepted(chain@, key.der_model()),
{
    let records = chain.records.iter().map(|c| rustls::Certificate(c.clone())).collect();
    let der = rustls::PrivateKey(key.der_bytes().clone());
    rustls::ServerConfig::builder()
        .with_safe_defaults()
        .with_no_client_auth()
        .with_single_cert(records, der)
        .map_err(|e| format!("{}", e))
}

/// The immutable TLS server context: built once from a chain and a key,
/// then only shared read-only. No method mutates it.
pub struct TlsServerContext {
    config: rustls::ServerConfig,
    chain_model: Ghost<Seq<Seq<u8>>>,
    key_model: Ghost<Seq<u8>>,
}

impl TlsServerContext {
    /// The DER records of the chain the context was built from.
    pub closed spec fn chain_model(&self) -> Seq<Seq<u8>> {
        self.chain_model@
    }

    /// The DER bytes of the key the context was built from.
    pub closed spec fn key_model(&self) -> Seq<u8> {
        self.key_model@
    }

    /// A context is well formed when construction accepted the chain/key
    /// pairing it was built from, and the chain is non-empty.
    pub open spec fn well_formed(&self) -> bool {
        tls_pairing_accepted(self.chain_model(), self.key_model())
            && self.chain_model().len() > 0
    }

    /// Build the context, or report why the pairing was rejected.
    pub fn build(chain: &CertificateChain, key: &PrivateKey) -> (r: Result<TlsServerContext, TlsConfigError>)
        requires
            chain.well_formed(),
        ensures
            match r {
                Ok(ctx) => tls_pairing_accepted(chain@, key.der_model())
                    && ctx.chain_model() == chain@
                    && ctx.key_model() == key.der_model()
                    && ctx.well_formed(),
                Err(_) => !tls_pairing_accepted(chain@, key.der_model()),
            },
    {
        match make_server_config(chain, key) {
            Ok(config) => Ok(TlsServerContext {
                config,
                chain_model: Ghost(chain@),
                key_model: Ghost(key.der_model()),
            }),
            Err(detail) => Err(TlsConfigError { detail }),
        }
    }

    /// Hand the underlying configuration to the runtime; consumes the
    /// context, so nothing of it remains to mutate.
    pub fn into_config(self) -> rustls::ServerConfig {
        self.config
    }
}

} // verus!
