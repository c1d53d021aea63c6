//! The TLS configuration of the control plane's HTTPS endpoint: a server
//! certificate issued by the mesh authority, client certificates optional but
//! checked against that authority, and HTTP/2 preferred over HTTP/1.1.
use vstd::prelude::*;

use crate::pki::{
    issued_by, leaf_ttl, single_san, states, states_policy_of, CertificateAuthority, PkiError,
};
use crate::profile::{datable, leaf_policy};
use crate::x509::{certificate_sans, certificate_spki, is_ascii_text, key_material_pkcs8, pkcs8_public_key};
use crate::tls_backend::{
    server_config_with_optional_client_auth, set_alpn_protocols, ServerConfigFailure, ServerSetup,
};
use rustls::{RootCertStore, ServerConfig};
use rustls_pki_types::CertificateDer;

verus! {

#[verifier::external_type_specification]
#[verifier::external_body]
pub struct ExRootCertStore(rustls::RootCertStore);

#[verifier::external_type_specification]
#[verifier::external_body]
pub struct ExServerConfig(rustls::ServerConfig);

#[verifier::external_type_specification]
#[verifier::external_body]
pub struct ExRustlsError(rustls::Error);

#[verifier::external_type_specification]
#[verifier::external_body]
pub struct ExVerifierBuilderError(rustls::server::VerifierBuilderError);

/// A trust anchor as plain values: the subject, the subject public key info
/// and the name constraints (all DER) that webpki reads from a certificate.
pub type AnchorView = (Seq<u8>, Seq<u8>, Option<Seq<u8>>);

/// The trust anchor that webpki's `anchor_from_trusted_cert` reads from the
/// DER certificate `der` (meaningful where `trust_anchor_readable(der)`).
pub uninterp spec fn trust_anchor_of(der: Seq<u8>) -> AnchorView;

/// Whether webpki reads the DER certificate `der` as a trust anchor (what
/// `rustls::RootCertStore::add` requires of it).
pub uninterp spec fn trust_anchor_readable(der: Seq<u8>) -> bool;

/// The trust anchors a root store holds (its `roots` field), in order.
pub uninterp spec fn root_store_anchors(store: RootCertStore) -> Seq<AnchorView>;

/// `rustls::RootCertStore::empty`: a store with no trust anchors.
#[verifier::external_body]
pub fn root_store_empty() -> (res: RootCertStore)
    ensures
        root_store_anchors(res) == Seq::<AnchorView>::empty(),
{
    RootCertStore::empty()
}

/// `rustls::RootCertStore::add`: appends the trust anchor read from `der`
/// when webpki reads one (which depends on `der` alone); on failure the store
/// is left as it was.
#[verifier::external_body]
pub fn root_store_add(store: &mut RootCertStore, der: Vec<u8>) -> (res: Result<(), rustls::Error>)
    ensures
        res is Ok <==> trust_anchor_readable(der@),
        res is Ok ==> root_store_anchors(*final(store)) == root_store_anchors(*old(store)).push(trust_anchor_of(der@)),
        res is Err ==> root_store_anchors(*final(store)) == root_store_anchors(*old(store)),
{
    store.add(CertificateDer::from(der))
}

/// The ALPN identifier of HTTP/2.
pub open spec fn alpn_h2() -> Seq<u8> {
    seq![104u8, 50u8]
}

/// The ALPN identifier of HTTP/1.1.
pub open spec fn alpn_http11() -> Seq<u8> {
    seq![104u8, 116u8, 116u8, 112u8, 47u8, 49u8, 46u8, 49u8]
}

/// The application protocols the endpoint offers, most preferred first:
/// `h2`, then `http/1.1`.
pub fn alpn_protocols() -> (res: Vec<Vec<u8>>)
    ensures
        res@.len() == 2,
        res@[0]@ == alpn_h2(),
        res@[1]@ == alpn_http11(),
{
    let h2: Vec<u8> = vec![104u8, 50u8];
    let http11: Vec<u8> = vec![104u8, 116u8, 116u8, 112u8, 47u8, 49u8, 46u8, 49u8];
    let mut protocols: Vec<Vec<u8>> = Vec::new();
    protocols.push(h2);
    protocols.push(http11);
    protocols
}

/// A root store holding the trust anchors of `roots`, in order. Fails, with
/// rustls's error, exactly when one of them is not read as a trust anchor.
pub fn root_store_of(roots: &Vec<Vec<u8>>) -> (res: Result<RootCertStore, rustls::Error>)
    ensures
        res is Ok <==> forall|i: int| 0 <= i < roots@.len() ==> trust_anchor_readable(#[trigger] roots@[i]@),
        res matches Ok(store) ==> root_store_anchors(store) == roots@.map_values(|d: Vec<u8>| trust_anchor_of(d@)),
{
    let mut store = root_store_empty();
    let mut i: usize = 0;
    while i < roots.len()
        invariant
            i <= roots@.len(),
            forall|j: int| 0 <= j < i ==> trust_anchor_readable(#[trigger] roots@[j]@),
            root_store_anchors(store) == roots@.subrange(0, i as int).map_values(|d: Vec<u8>| trust_anchor_of(d@)),
        decreases roots@.len() - i,
    {
        let der = roots[i].clone();
        match root_store_add(&mut store, der) {
            Ok(()) => {},
            Err(e) => return Err(e),
        }
        proof {
            assert(roots@.subrange(0, i + 1).map_values(|d: Vec<u8>| trust_anchor_of(d@))
                =~= roots@.subrange(0, i as int).map_values(|d: Vec<u8>| trust_anchor_of(d@)).push(trust_anchor_of(roots@[i as int]@)));
        }
        i = i + 1;
    }
    assert(roots@.subrange(0, roots@.len() as int) =~= roots@);
    Ok(store)
}

/// What the endpoint's TLS configuration holds, as plain values: the trust
/// roots for client certificates (a client may also present none), the
/// certificate chain it serves with its PKCS#8 private key, and the ALPN
/// protocols, most preferred first.
pub struct TlsSettings {
    pub roots: Vec<Vec<u8>>,
    pub cert_chain: Vec<Vec<u8>>,
    pub key_der: Vec<u8>,
    pub alpn_protocols: Vec<Vec<u8>>,
}

/// The settings hold `roots_der` as the only root, `chain_der` as the only
/// certificate served, and the ALPN list of `alpn_protocols`.
pub open spec fn settings_hold(s: TlsSettings, root_der: Seq<u8>) -> bool {
    &&& s.roots@.len() == 1 && s.roots@[0]@ == root_der
    &&& s.cert_chain@.len() == 1
    &&& s.alpn_protocols@.len() == 2
    &&& s.alpn_protocols@[0]@ == alpn_h2()
    &&& s.alpn_protocols@[1]@ == alpn_http11()
}

/// The settings serve a certificate that `cert_auth` issued for the key they
/// hold: the served certificate certifies the public key of `key_der`.
pub open spec fn serves_issued(s: TlsSettings, cert_auth: CertificateAuthority) -> bool {
    &&& s.cert_chain@.len() == 1
    &&& pkcs8_public_key(s.key_der@) is Some
    &&& certificate_spki(s.cert_chain@[0]@) == pkcs8_public_key(s.key_der@)
    &&& issued_by(s.cert_chain@[0]@, cert_auth)
}

/// The endpoint's settings at time `now`: the authority as the only root for
/// client certificates, and a fresh leaf certificate for `san` issued by the
/// authority (stating `san` and the leaf policy at `now`) with its key.
pub fn tls_settings_at(cert_auth: &CertificateAuthority, san: &str, now: i64) -> (res: Result<TlsSettings, PkiError>)
    ensures
        res matches Err(PkiError::ClockOutOfRange) <==> !datable(leaf_ttl(), now as int),
        res is Ok ==> is_ascii_text(san@),
        datable(leaf_ttl(), now as int) && !is_ascii_text(san@) ==> (res matches Err(e) && (e is KeyGeneration || e is InvalidSubjectAltName)),
        res matches Err(PkiError::InvalidSubjectAltName(_)) ==> !is_ascii_text(san@),
        res matches Err(e) ==> (e is ClockOutOfRange || e is KeyGeneration || e is InvalidSubjectAltName || e is Signing),
        res matches Ok(s) ==> settings_hold(s, cert_auth.cert_der())
            && states(s.cert_chain@[0]@, single_san(san@), leaf_policy(now as int))
            && serves_issued(s, *cert_auth),
{
    let (server_cert, server_key) = cert_auth.issue_server_cert_at(san, now)?;
    let mut roots: Vec<Vec<u8>> = Vec::new();
    roots.push(cert_auth.ca_cert_der().clone());
    let mut cert_chain: Vec<Vec<u8>> = Vec::new();
    cert_chain.push(server_cert.der);
    Ok(TlsSettings { roots, cert_chain, key_der: key_material_pkcs8(&server_key), alpn_protocols: alpn_protocols() })
}

/// The endpoint's settings as `tls_settings_at` gives them, dated by the
/// system clock.
pub fn tls_settings(cert_auth: &CertificateAuthority, san: &str) -> (res: Result<TlsSettings, PkiError>)
    ensures
        res is Ok ==> is_ascii_text(san@),
        res matches Err(PkiError::InvalidSubjectAltName(_)) ==> !is_ascii_text(san@),
        res matches Err(e) ==> (e is ClockOutOfRange || e is KeyGeneration || e is InvalidSubjectAltName || e is Signing),
        res matches Ok(s) ==> settings_hold(s, cert_auth.cert_der())
            && certificate_sans(s.cert_chain@[0]@) == Some(single_san(san@))
            && states_policy_of(s.cert_chain@[0]@, |t: int| leaf_policy(t))
            && serves_issued(s, *cert_auth),
{
    tls_settings_at(cert_auth, san, crate::x509::now_unix())
}

/// Why building the TLS configuration failed.
#[derive(Debug)]
pub enum TlsConfigError {
    /// Issuing the server certificate failed.
    Pki(PkiError),
    /// rustls refused a certificate or key.
    Tls(rustls::Error),
    /// The client certificate verifier could not be built.
    Verifier(rustls::server::VerifierBuilderError),
}

/// The setup holds exactly what `settings` gives: the trust anchors of its
/// roots, its certificate chain and key, and its ALPN protocols.
pub open spec fn setup_holds(setup: ServerSetup, settings: TlsSettings) -> bool {
    &&& setup.client_anchors() == settings.roots@.map_values(|d: Vec<u8>| trust_anchor_of(d@))
    &&& setup.served_chain() == settings.cert_chain@.map_values(|c: Vec<u8>| c@)
    &&& setup.served_key() == settings.key_der@
    &&& setup.offered_protocols() == settings.alpn_protocols@.map_values(|p: Vec<u8>| p@)
}

/// The endpoint's setup for `cert_auth`: client certificates are checked
/// against the authority's certificate alone; one certificate is served,
/// issued by the authority for the public key of the key served with it; and
/// `h2` then `http/1.1` are offered.
pub open spec fn endpoint_setup(setup: ServerSetup, cert_auth: CertificateAuthority) -> bool {
    &&& setup.client_anchors() == seq![trust_anchor_of(cert_auth.cert_der())]
    &&& setup.served_chain().len() == 1
    &&& pkcs8_public_key(setup.served_key()) is Some
    &&& certificate_spki(setup.served_chain()[0]) == pkcs8_public_key(setup.served_key())
    &&& issued_by(setup.served_chain()[0], cert_auth)
    &&& setup.offered_protocols() == seq![alpn_h2(), alpn_http11()]
}

/// Settings for `cert_auth` give the endpoint's setup: a setup that holds
/// them trusts the authority alone and serves a certificate it issued, for
/// the key served with it.
pub proof fn lemma_settings_give_endpoint_setup(setup: ServerSetup, settings: TlsSettings, cert_auth: CertificateAuthority)
    requires
        settings_hold(settings, cert_auth.cert_der()),
        serves_issued(settings, cert_auth),
        setup_holds(setup, settings),
    ensures
        endpoint_setup(setup, cert_auth),
{
    assert(settings.roots@.map_values(|d: Vec<u8>| trust_anchor_of(d@)) =~= seq![trust_anchor_of(cert_auth.cert_der())]);
    assert(settings.alpn_protocols@.map_values(|p: Vec<u8>| p@) =~= seq![alpn_h2(), alpn_http11()]);
}

/// The control plane's TLS setup, built by rustls from `tls_settings`:
/// optional client certificates checked against the authority alone, a fresh
/// leaf certificate for `san` issued by the authority with its key, and the
/// protocols of `alpn_protocols`.
pub fn build_tls_setup(cert_auth: &CertificateAuthority, san: &str) -> (res: Result<ServerSetup, TlsConfigError>)
    ensures
        res is Ok ==> is_ascii_text(san@) && trust_anchor_readable(cert_auth.cert_der()),
        !is_ascii_text(san@) ==> res matches Err(TlsConfigError::Pki(_)),
        res matches Err(TlsConfigError::Pki(e)) ==> (e is ClockOutOfRange || e is KeyGeneration || e is InvalidSubjectAltName || e is Signing),
        res matches Ok(setup) ==> endpoint_setup(setup, *cert_auth)
            && certificate_sans(setup.served_chain()[0]) == Some(single_san(san@))
            && states_policy_of(setup.served_chain()[0], |t: int| leaf_policy(t)),
{
    let settings = match tls_settings(cert_auth, san) {
        Ok(s) => s,
        Err(e) => return Err(TlsConfigError::Pki(e)),
    };
    let ghost kept = settings;
    let res = build_server_config(settings);
    proof {
        if res is Ok {
            lemma_settings_give_endpoint_setup(res->Ok_0, kept, *cert_auth);
        }
    }
    res
}

/// The control plane's TLS configuration: the rustls configuration of
/// `build_tls_setup`.
pub fn build_tls_config(cert_auth: &CertificateAuthority, san: &str) -> (res: Result<ServerConfig, TlsConfigError>)
    ensures
        res is Ok ==> is_ascii_text(san@) && trust_anchor_readable(cert_auth.cert_der()),
        !is_ascii_text(san@) ==> res matches Err(TlsConfigError::Pki(_)),
        res matches Err(TlsConfigError::Pki(e)) ==> (e is ClockOutOfRange || e is KeyGeneration || e is InvalidSubjectAltName || e is Signing),
{
    match build_tls_setup(cert_auth, san) {
        Ok(setup) => Ok(setup.into_config()),
        Err(e) => Err(e),
    }
}

/// The rustls configuration that holds `settings`: its roots in a store, the
/// verifier and certificate chain built by rustls, and the ALPN list set.
/// Fails with rustls's error when a root is not read as a trust anchor, or
/// when rustls refuses the verifier, chain or key.
pub fn build_server_config(settings: TlsSettings) -> (res: Result<ServerSetup, TlsConfigError>)
    ensures
        (exists|i: int| 0 <= i < settings.roots@.len() && !trust_anchor_readable(#[trigger] settings.roots@[i]@))
            ==> res matches Err(TlsConfigError::Tls(_)),
        res is Ok ==> forall|i: int| 0 <= i < settings.roots@.len() ==> trust_anchor_readable(#[trigger] settings.roots@[i]@),
        !(res matches Err(TlsConfigError::Pki(_))),
        res matches Ok(setup) ==> setup_holds(setup, settings),
{
    let roots = match root_store_of(&settings.roots) {
        Ok(r) => r,
        Err(e) => return Err(TlsConfigError::Tls(e)),
    };
    let mut tls_config = match server_config_with_optional_client_auth(roots, settings.cert_chain, settings.key_der) {
        Ok(c) => c,
        Err(ServerConfigFailure::Verifier(e)) => return Err(TlsConfigError::Verifier(e)),
        Err(ServerConfigFailure::Tls(e)) => return Err(TlsConfigError::Tls(e)),
    };
    set_alpn_protocols(&mut tls_config, settings.alpn_protocols);
    Ok(tls_config)
}

} // verus!
