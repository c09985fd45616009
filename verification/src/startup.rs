//! The startup pipeline: from the raw bytes of the two credential files to
//! the immutable TLS server context.
//!
//! Startup failures are fatal and strictly ordered: a missing or
//! unparseable certificate file is reported before the key file is even
//! considered, and the context is built only when both credentials loaded.
//! The caller binds its listening socket only after this pipeline returns
//! the context, so no startup failure can leave a socket behind.

use vstd::prelude::*;
use crate::context::TlsConfigError;
use crate::context::TlsServerContext;
use crate::context::tls_pairing_accepted;
use crate::credentials::CertificateLoadError;
use crate::credentials::PrivateKeyLoadError;
use crate::credentials::parse_certificate_chain;
use crate::credentials::parse_private_key;
use crate::credentials::spec_certificate_chain;
use crate::credentials::spec_selected_key;

verus! {

/// A fatal startup failure; each variant carries the stage that failed.
pub enum StartupError {
    /// The certificate chain could not be loaded.
    CertificateLoad(CertificateLoadError),
    /// The private key could not be loaded.
    PrivateKeyLoad(PrivateKeyLoadError),
    /// Context construction rejected the chain/key pairing.
    TlsConfig(TlsConfigError),
}

/// The certificate stage succeeds on these bytes.
pub open spec fn certificates_load(cert_bytes: Option<Seq<u8>>) -> bool {
    cert_bytes matches Some(b) && spec_certificate_chain(b) is Ok
}

/// The key stage succeeds on these bytes.
pub open spec fn key_loads(key_bytes: Option<Seq<u8>>) -> bool {
    key_bytes matches Some(b) && spec_selected_key(b) is Some
}

/// The whole pipeline succeeds: both credentials load, and construction
/// accepts their pairing.
pub open spec fn startup_succeeds(cert_bytes: Option<Seq<u8>>, key_bytes: Option<Seq<u8>>) -> bool {
    &&& certificates_load(cert_bytes)
    &&& key_loads(key_bytes)
    &&& tls_pairing_accepted(
        spec_certificate_chain(cert_bytes->Some_0)->Ok_0,
        spec_selected_key(key_bytes->Some_0)->Some_0.1,
    )
}

/// Run the startup pipeline on the contents of the two credential files;
/// `None` stands for a file that could not be opened or read. Every
/// failure is fatal and reported once; no context exists unless every
/// stage succeeded, so a caller that binds only with a context in hand
/// cannot bind after a failed startup.
pub fn prepare_context(cert_bytes: Option<Vec<u8>>, key_bytes: Option<Vec<u8>>) -> (r: Result<
    TlsServerContext,
    StartupError,
>)
    ensures
        r is Ok <==> startup_succeeds(cert_bytes.deep_view(), key_bytes.deep_view()),
        match r {
            Ok(ctx) => ctx.well_formed()
                && ctx.chain_model() == spec_certificate_chain(cert_bytes.deep_view()->Some_0)->Ok_0
                && ctx.key_model() == spec_selected_key(key_bytes.deep_view()->Some_0)->Some_0.1,
            Err(e) => match e {
                StartupError::CertificateLoad(ce) => !certificates_load(cert_bytes.deep_view())
                    && (cert_bytes is None <==> ce == CertificateLoadError::Unreadable),
                StartupError::PrivateKeyLoad(ke) => certificates_load(cert_bytes.deep_view())
                    && !key_loads(key_bytes.deep_view())
                    && (key_bytes is None <==> ke == PrivateKeyLoadError::Unreadable),
                StartupError::TlsConfig(_) => certificates_load(cert_bytes.deep_view())
                    && key_loads(key_bytes.deep_view())
                    && !startup_succeeds(cert_bytes.deep_view(), key_bytes.deep_view()),
            },
        },
{
    let cb = match cert_bytes {
        Some(b) => b,
        None => {
            return Err(StartupError::CertificateLoad(CertificateLoadError::Unreadable));
        },
    };
    proof {
        assert(cb.deep_view() =~= cb@);
    }
    let chain = match parse_certificate_chain(cb.as_slice()) {
        Ok(chain) => chain,
        Err(e) => {
            return Err(StartupError::CertificateLoad(e));
        },
    };
    let kb = match key_bytes {
        Some(b) => b,
        None => {
            return Err(StartupError::PrivateKeyLoad(PrivateKeyLoadError::Unreadable));
        },
    };
    proof {
        assert(kb.deep_view() =~= kb@);
    }
    let key = match parse_private_key(kb.as_slice()) {
        Ok(key) => key,
        Err(e) => {
            return Err(StartupError::PrivateKeyLoad(e));
        },
    };
    match TlsServerContext::build(&chain, &key) {
        Ok(ctx) => Ok(ctx),
        Err(e) => Err(StartupError::TlsConfig(e)),
    }
}

} // verus!
