//! The rustls server configuration of the endpoint, held with plain copies of
//! what it was built from, so that contracts can say what it holds.
use vstd::prelude::*;

use crate::tls::{root_store_anchors, AnchorView};
use rustls::server::WebPkiClientVerifier;
use rustls::{RootCertStore, ServerConfig};
use rustls_pki_types::{CertificateDer, PrivatePkcs8KeyDer};
use std::sync::Arc;

verus! {

/// Why rustls refused to build a server configuration.
#[derive(Debug)]
pub enum ServerConfigFailure {
    /// The client certificate verifier could not be built.
    Verifier(rustls::server::VerifierBuilderError),
    /// The certificate or key was refused.
    Tls(rustls::Error),
}

/// A rustls server configuration together with copies of what it holds: the
/// root store of its client certificate verifier, the certificate chain and
/// PKCS#8 key it serves, and the ALPN protocols it offers. The fields are
/// private; only the two wrappers below make or change one, and each keeps
/// every copy equal to what it hands to rustls.
pub struct ServerSetup {
    config: ServerConfig,
    client_roots: RootCertStore,
    cert_chain: Vec<Vec<u8>>,
    key_der: Vec<u8>,
    alpn_protocols: Vec<Vec<u8>>,
}

impl ServerSetup {
    /// The trust anchors the client certificate verifier checks against.
    pub closed spec fn client_anchors(&self) -> Seq<AnchorView> {
        root_store_anchors(self.client_roots)
    }

    /// The certificate chain served (DER), leaf first.
    pub closed spec fn served_chain(&self) -> Seq<Seq<u8>> {
        self.cert_chain@.map_values(|c: Vec<u8>| c@)
    }

    /// The private key served with the chain (PKCS#8 DER).
    pub closed spec fn served_key(&self) -> Seq<u8> {
        self.key_der@
    }

    /// The ALPN protocols offered, most preferred first.
    pub closed spec fn offered_protocols(&self) -> Seq<Seq<u8>> {
        self.alpn_protocols@.map_values(|p: Vec<u8>| p@)
    }

    /// The rustls configuration itself.
    pub fn into_config(self) -> (res: ServerConfig) {
        self.config
    }
}

/// The rustls builder chain for a server configuration:
/// `WebPkiClientVerifier::builder(roots).allow_unauthenticated().build()`,
/// then `ServerConfig::builder().with_client_cert_verifier(..)` and
/// `.with_single_cert(cert_chain, key_der)`. Clients without a certificate
/// are accepted; one that presents a certificate is checked against `roots`;
/// the endpoint serves `cert_chain` with the PKCS#8 key `key_der`, and offers
/// no ALPN protocol (rustls's default). The intermediate values
/// (`Arc<dyn ClientCertVerifier>`, and a builder whose declaration carries a
/// sealed outside trait bound) cannot be named by verified code, so the chain
/// stands in one item. When it fails, nothing is stated beyond which step
/// failed.
#[verifier::external_body]
pub fn server_config_with_optional_client_auth(
    roots: RootCertStore,
    cert_chain: Vec<Vec<u8>>,
    key_der: Vec<u8>,
) -> (res: Result<ServerSetup, ServerConfigFailure>)
    ensures
        res matches Ok(s) ==> s.client_anchors() == root_store_anchors(roots)
            && s.served_chain() == cert_chain@.map_values(|c: Vec<u8>| c@)
            && s.served_key() == key_der@
            && s.offered_protocols() == Seq::<Seq<u8>>::empty(),
{
    let client_roots = roots.clone();
    let verifier = WebPkiClientVerifier::builder(Arc::new(roots)).allow_unauthenticated().build()
        .map_err(ServerConfigFailure::Verifier)?;
    let chain = cert_chain.iter().cloned().map(CertificateDer::from).collect();
    let config = ServerConfig::builder().with_client_cert_verifier(verifier)
        .with_single_cert(chain, PrivatePkcs8KeyDer::from(key_der.clone()).into())
        .map_err(ServerConfigFailure::Tls)?;
    Ok(ServerSetup { config, client_roots, cert_chain, key_der, alpn_protocols: Vec::new() })
}

/// Writes the `alpn_protocols` field of the `rustls::ServerConfig`, and its
/// copy; nothing else changes.
#[verifier::external_body]
pub fn set_alpn_protocols(setup: &mut ServerSetup, protocols: Vec<Vec<u8>>)
    ensures
        final(setup).offered_protocols() == protocols@.map_values(|p: Vec<u8>| p@),
        final(setup).client_anchors() == old(setup).client_anchors(),
        final(setup).served_chain() == old(setup).served_chain(),
        final(setup).served_key() == old(setup).served_key(),
{
    setup.alpn_protocols = protocols.clone();
    setup.config.alpn_protocols = protocols;
}

} // verus!
