//! The certificate machinery that the authority relies on: key generation,
//! signing and PEM decoding come from `rcgen`, `time` and `rustls-pki-types`.
//! Every item here is trusted: its contract restates what the outside source shows.
use vstd::prelude::*;

use crate::profile::{CaKind, ExtKeyUsage, IssuancePolicy, KeyUsage, PolicyView, CERT_TIME_MIN, UNIX_TIME_MAX, UNIX_TIME_MIN};
use rcgen::{
    BasicConstraints, CertificateParams, CertificateSigningRequest,
    CertificateSigningRequestParams, ExtendedKeyUsagePurpose, IsCa, Issuer, KeyPair,
    KeyUsagePurpose, PublicKeyData, SanType,
};
use rustls_pki_types::pem::PemObject;
use rustls_pki_types::{CertificateDer, CertificateSigningRequestDer};
use time::OffsetDateTime;
use vstd::utf8::encode_utf8;

verus! {

#[verifier::external_type_specification]
#[verifier::external_body]
pub struct ExCertificateParams(rcgen::CertificateParams);

#[verifier::external_type_specification]
#[verifier::external_body]
pub struct ExKeyPair(rcgen::KeyPair);

#[verifier::external_type_specification]
#[verifier::external_body]
pub struct ExCertificate(rcgen::Certificate);

#[verifier::external_type_specification]
#[verifier::external_body]
pub struct ExCertificateSigningRequest(rcgen::CertificateSigningRequest);

#[verifier::external_type_specification]
#[verifier::external_body]
pub struct ExCertificateSigningRequestParams(rcgen::CertificateSigningRequestParams);

#[verifier::external_type_specification]
#[verifier::external_body]
#[verifier::reject_recursive_types(S)]
pub struct ExIssuer<'a, S>(rcgen::Issuer<'a, S>);

#[verifier::external_type_specification]
#[verifier::external_body]
pub struct ExRcgenError(rcgen::Error);

#[verifier::external_type_specification]
#[verifier::external_body]
pub struct ExPemError(rustls_pki_types::pem::Error);

#[verifier::external_type_specification]
#[verifier::external_body]
pub struct ExOffsetDateTime(time::OffsetDateTime);

#[verifier::external_type_specification]
#[verifier::external_body]
pub struct ExIsCa(rcgen::IsCa);

#[verifier::external_type_specification]
#[verifier::external_body]
pub struct ExKeyUsagePurpose(rcgen::KeyUsagePurpose);

#[verifier::external_type_specification]
#[verifier::external_body]
pub struct ExExtendedKeyUsagePurpose(rcgen::ExtendedKeyUsagePurpose);

#[verifier::external_type_specification]
#[verifier::external_body]
pub struct ExSanType(rcgen::SanType);

/// Every character of `s` is ASCII.
pub open spec fn is_ascii_text(s: Seq<char>) -> bool {
    forall|i: int| 0 <= i < s.len() ==> (s[i] as u32) < 128
}

/// Every name in `names` is ASCII.
pub open spec fn all_ascii(names: Seq<String>) -> bool {
    forall|i: int| 0 <= i < names.len() ==> is_ascii_text(#[trigger] names[i]@)
}

/// The DER bytes of the first `CERTIFICATE` section of the PEM text `pem`,
/// or `None` when it holds none that decodes.
pub uninterp spec fn pem_certificate_section(pem: Seq<u8>) -> Option<Seq<u8>>;

/// The DER bytes of the first `CERTIFICATE REQUEST` section of the PEM text
/// `pem`, or `None` when it holds none that decodes.
pub uninterp spec fn pem_csr_section(pem: Seq<u8>) -> Option<Seq<u8>>;

/// Whether `rcgen::Issuer::from_ca_cert_pem` reads the PEM text `pem` as a
/// CA certificate (a PEM section holding a parsable X.509 certificate whose
/// key usages, key identifier method and subject rcgen understands).
pub uninterp spec fn ca_certificate_pem_readable(pem: Seq<char>) -> bool;

/// Whether `rcgen::CertificateSigningRequestParams::from_der` reads `der` as a
/// PKCS#10 request with a valid self-signature.
pub uninterp spec fn csr_der_readable(der: Seq<u8>) -> bool;


/// A subject alternative name: a DNS name, an IP address (held as the text
/// it was read from), or another kind that this library never asks for.
#[derive(Debug)]
pub enum SubjectAltName {
    Dns(String),
    Ip(String),
    Other,
}

/// A subject alternative name as plain values: whether it is an IP address,
/// and its bytes (the octets of an address, the UTF-8 bytes of a name).
pub type SanView = (bool, Seq<u8>);

impl SubjectAltName {
    /// The name as plain values.
    pub open spec fn view_san(&self) -> SanView {
        match self {
            SubjectAltName::Dns(name) => (false, encode_utf8(name@)),
            SubjectAltName::Ip(text) => (true, ip_address_of(text@).unwrap()),
            SubjectAltName::Other => (false, Seq::empty()),
        }
    }

    /// The name can be written into a certificate: an ASCII DNS name or a
    /// text that reads as an IP address.
    pub open spec fn writable(&self) -> bool {
        match self {
            SubjectAltName::Dns(name) => is_ascii_text(name@),
            SubjectAltName::Ip(text) => ip_address_of(text@) is Some,
            SubjectAltName::Other => false,
        }
    }
}

/// The names as plain values, in order.
pub open spec fn view_sans(sans: Seq<SubjectAltName>) -> Seq<SanView> {
    sans.map_values(|s: SubjectAltName| s.view_san())
}

/// The octets of the IP address that `std::net::IpAddr::from_str` reads from
/// `text` (4 for IPv4, 16 for IPv6), or `None` when it reads none.
pub uninterp spec fn ip_address_of(text: Seq<char>) -> Option<Seq<u8>>;

/// The subject alternative name that rcgen makes of `text`: an IP address
/// when `text` reads as one, a DNS name otherwise.
pub open spec fn san_of(text: Seq<char>) -> SanView {
    match ip_address_of(text) {
        Some(octets) => (true, octets),
        None => (false, encode_utf8(text)),
    }
}

/// Certificate parameters as plain values: the subject alternative names and
/// the issuance policy. Every other field is rcgen's default.
pub struct CertParams {
    pub subject_alt_names: Vec<SubjectAltName>,
    pub policy: IssuancePolicy,
}

/// Parameters that rcgen can write into a certificate.
pub open spec fn signable(p: CertParams) -> bool {
    &&& forall|i: int| 0 <= i < p.subject_alt_names@.len() ==> (#[trigger] p.subject_alt_names@[i]).writable()
    &&& policy_signable(p.policy)
}

/// A policy whose dates a certificate can state.
pub open spec fn policy_signable(p: IssuancePolicy) -> bool {
    &&& CERT_TIME_MIN <= p.not_before <= UNIX_TIME_MAX
    &&& CERT_TIME_MIN <= p.not_after <= UNIX_TIME_MAX
}

/// A policy as a certificate states it: key usages form a set (DER writes
/// them as a bit string).
pub type CertPolicyView = (int, int, CaKind, Set<KeyUsage>, Seq<ExtKeyUsage>);

/// The certificate form of a policy.
pub open spec fn cert_policy_view(p: PolicyView) -> CertPolicyView {
    (p.0, p.1, p.2, p.3.to_set(), p.4)
}

/// What the DER certificate `der` states of validity (Unix seconds), basic
/// constraints, key usages and extended key usages, or `None` when it is not
/// a certificate whose basic constraints and usages these values can express.
pub uninterp spec fn certificate_policy(der: Seq<u8>) -> Option<CertPolicyView>;

/// The subject alternative names that the DER certificate `der` states, in
/// order, or `None` when it is not a certificate.
pub uninterp spec fn certificate_sans(der: Seq<u8>) -> Option<Seq<SanView>>;

/// `rcgen::CertificateParams::new`, read back as plain values: each name
/// becomes an IP SAN when `std::net::IpAddr::from_str` reads it, otherwise a
/// DNS SAN, which is refused unless ASCII. So the call succeeds exactly when
/// every name is ASCII, and gives one SAN per name, in order; each SAN is
/// returned with the name it was made of.
#[verifier::external_body]
pub fn new_certificate_sans(names: Vec<String>) -> (res: Result<Vec<SubjectAltName>, rcgen::Error>)
    ensures
        res is Ok <==> all_ascii(names@),
        res matches Ok(sans) ==> sans@.len() == names@.len()
            && forall|i: int| 0 <= i < names@.len() ==> #[trigger] sans@[i].view_san() == san_of(names@[i]@)
                && sans@[i].writable()
                && (sans@[i] is Ip <==> ip_address_of(names@[i]@) is Some),
{
    let params = CertificateParams::new(names.clone())?;
    Ok(params.subject_alt_names.into_iter().zip(names).map(|(san, name)| match san {
        SanType::DnsName(_) => SubjectAltName::Dns(name),
        SanType::IpAddress(_) => SubjectAltName::Ip(name),
        _ => SubjectAltName::Other,
    }).collect())
}

/// `time::OffsetDateTime::from_unix_timestamp`, which succeeds on every
/// timestamp of the representable range (and is only called on those).
#[verifier::external_body]
pub fn unix_to_datetime(timestamp: i64) -> (res: OffsetDateTime)
    requires
        UNIX_TIME_MIN <= timestamp <= UNIX_TIME_MAX,
{
    OffsetDateTime::from_unix_timestamp(timestamp).unwrap()
}

/// The rcgen form of a basic-constraints setting, one variant for one.
#[verifier::external_body]
pub fn rcgen_is_ca(kind: CaKind) -> (res: IsCa) {
    match kind {
        CaKind::Unconstrained => IsCa::Ca(BasicConstraints::Unconstrained),
        CaKind::ExplicitNoCa => IsCa::ExplicitNoCa,
    }
}

/// The rcgen form of key usages, one for one and in order.
#[verifier::external_body]
pub fn rcgen_key_usages(usages: &Vec<KeyUsage>) -> (res: Vec<KeyUsagePurpose>) {
    usages.iter().map(|k| match k {
        KeyUsage::DigitalSignature => KeyUsagePurpose::DigitalSignature,
        KeyUsage::KeyCertSign => KeyUsagePurpose::KeyCertSign,
        KeyUsage::CrlSign => KeyUsagePurpose::CrlSign,
    }).collect()
}

/// The rcgen form of extended key usages, one for one and in order.
#[verifier::external_body]
pub fn rcgen_ext_key_usages(usages: &Vec<ExtKeyUsage>) -> (res: Vec<ExtendedKeyUsagePurpose>) {
    usages.iter().map(|k| match k {
        ExtKeyUsage::ClientAuth => ExtendedKeyUsagePurpose::ClientAuth,
        ExtKeyUsage::ServerAuth => ExtendedKeyUsagePurpose::ServerAuth,
    }).collect()
}

/// The rcgen form of subject alternative names, one for one and in order
/// (`Ia5String::try_from` on each DNS name, which succeeds on ASCII; the
/// address parse on each IP name, which succeeds on the texts it reads).
#[verifier::external_body]
pub fn rcgen_sans(sans: &Vec<SubjectAltName>) -> (res: Vec<SanType>)
    requires
        forall|i: int| 0 <= i < sans@.len() ==> (#[trigger] sans@[i]).writable(),
{
    sans.iter().map(|san| match san {
        SubjectAltName::Dns(name) => SanType::DnsName(name.clone().try_into().unwrap()),
        SubjectAltName::Ip(text) => SanType::IpAddress(text.parse().unwrap()),
        SubjectAltName::Other => SanType::DnsName(String::new().try_into().unwrap()),
    }).collect()
}

/// Writes a policy into the five `rcgen::CertificateParams` fields it covers;
/// every other field is left as it is.
#[verifier::external_body]
pub fn write_policy(params: &mut CertificateParams, policy: &IssuancePolicy)
    requires
        policy_signable(*policy),
{
    params.not_before = unix_to_datetime(policy.not_before);
    params.not_after = unix_to_datetime(policy.not_after);
    params.is_ca = rcgen_is_ca(policy.is_ca);
    params.key_usages = rcgen_key_usages(&policy.key_usages);
    params.extended_key_usages = rcgen_ext_key_usages(&policy.extended_key_usages);
}

/// The public key (SubjectPublicKeyInfo DER) of the private key that
/// `rcgen::KeyPair::from_pem` reads from `pem`, or `None` when the text holds
/// no key it decodes.
pub uninterp spec fn key_pem_public_key(pem: Seq<char>) -> Option<Seq<u8>>;

/// Whether `pem` holds a private key that `rcgen::KeyPair::from_pem` decodes.
pub open spec fn key_pem_readable(pem: Seq<char>) -> bool {
    key_pem_public_key(pem) is Some
}

/// The public key (SubjectPublicKeyInfo DER) of the private key that rcgen
/// reads from the PKCS#8 DER bytes `pkcs8` (`KeyPair::try_from`), or `None`.
pub uninterp spec fn pkcs8_public_key(pkcs8: Seq<u8>) -> Option<Seq<u8>>;

/// The public key (SubjectPublicKeyInfo DER) that the DER certificate `der`
/// certifies, or `None` when it is not a certificate.
pub uninterp spec fn certificate_spki(der: Seq<u8>) -> Option<Seq<u8>>;

/// The issuer name (DER) of the DER certificate `der`, or `None`.
pub uninterp spec fn certificate_issuer(der: Seq<u8>) -> Option<Seq<u8>>;

/// The subject name (DER) of the DER certificate `der`, or `None`.
pub uninterp spec fn certificate_subject(der: Seq<u8>) -> Option<Seq<u8>>;

/// Whether the signature of the DER certificate `der` verifies under the
/// public key `spki` (SubjectPublicKeyInfo DER).
pub uninterp spec fn certificate_verifies_under(der: Seq<u8>, spki: Seq<u8>) -> bool;

/// The public key (SubjectPublicKeyInfo DER) that the PKCS#10 request `der`
/// carries, as rcgen reads it.
pub uninterp spec fn csr_spki(der: Seq<u8>) -> Seq<u8>;

/// The subject name (DER) that rcgen writes into a certificate issued for the
/// PKCS#10 request `der` (the request's subject, as rcgen reads it).
pub uninterp spec fn csr_subject(der: Seq<u8>) -> Seq<u8>;

/// The subject alternative names the PKCS#10 request `der` asks for, as rcgen
/// reads them, in order.
pub uninterp spec fn csr_sans(der: Seq<u8>) -> Seq<SanView>;

/// A key pair with its public key and its PKCS#8 encoding as plain values.
/// Its fields are private and only the wrappers below make one, each filling
/// `public_key` and `pkcs8` from the key itself.
#[derive(Debug)]
pub struct KeyMaterial {
    key: KeyPair,
    public_key: Vec<u8>,
    pkcs8: Vec<u8>,
}

impl KeyMaterial {
    /// The key's public key (SubjectPublicKeyInfo DER).
    pub closed spec fn public_key(&self) -> Seq<u8> {
        self.public_key@
    }

    /// The key pair in PKCS#8 DER.
    pub closed spec fn pkcs8(&self) -> Seq<u8> {
        self.pkcs8@
    }
}

/// `rcgen::KeyPair::generate` (a fresh random ECDSA P-256 key pair), with its
/// `subject_public_key_info` and `serialize_der`. Whether generation succeeds
/// rests on the random source and is left unstated.
#[verifier::external_body]
pub fn generate_key_material() -> (res: Result<KeyMaterial, rcgen::Error>)
    ensures
        res matches Ok(k) ==> pkcs8_public_key(k.pkcs8()) == Some(k.public_key()),
{
    let key = KeyPair::generate()?;
    Ok(KeyMaterial { public_key: key.subject_public_key_info(), pkcs8: key.serialize_der(), key })
}

/// `rcgen::KeyPair::from_pem`, with the key's public key and PKCS#8 form. It
/// fails on a text that holds no key it decodes; on one that does, ring also
/// draws on the system random source, so success is not promised.
#[verifier::external_body]
pub fn key_material_from_pem(pem: &str) -> (res: Result<KeyMaterial, rcgen::Error>)
    ensures
        !key_pem_readable(pem@) ==> res is Err,
        res matches Ok(k) ==> key_pem_public_key(pem@) == Some(k.public_key())
            && pkcs8_public_key(k.pkcs8()) == Some(k.public_key()),
{
    let key = KeyPair::from_pem(pem)?;
    Ok(KeyMaterial { public_key: key.subject_public_key_info(), pkcs8: key.serialize_der(), key })
}

/// `rcgen::KeyPair::serialize_pem`: the key pair as PKCS#8 PEM text, which
/// `KeyPair::from_pem` reads back as the same key.
#[verifier::external_body]
pub fn key_material_pem(k: &KeyMaterial) -> (res: String)
    ensures
        key_pem_public_key(res@) == Some(k.public_key()),
{
    k.key.serialize_pem()
}

/// The key pair's PKCS#8 DER bytes (`rcgen::KeyPair::serialize_der`).
#[verifier::external_body]
pub fn key_material_pkcs8(k: &KeyMaterial) -> (res: Vec<u8>)
    ensures
        res@ == k.pkcs8(),
{
    k.pkcs8.clone()
}

/// The distinguished name (DER) of rcgen's default certificate parameters,
/// which every certificate made from `CertParams` carries as its subject: a
/// single common name, the UTF-8 string "rcgen self signed cert".
pub open spec fn default_subject_name() -> Seq<u8> {
    seq![0x30u8, 0x21, 0x31, 0x1f, 0x30, 0x1d, 0x06, 0x03, 0x55, 0x04, 0x03, 0x0c, 0x16]
        + encode_utf8("rcgen self signed cert"@)
}

/// The name (DER) that an `rcgen::Issuer` read from the CA certificate PEM
/// text `pem` writes as the issuer of the certificates it signs: the
/// certificate's subject as rcgen reads it back and writes it again.
pub uninterp spec fn ca_pem_issuer_name(pem: Seq<char>) -> Seq<u8>;

/// An rcgen `Issuer` with the public key of the key pair it signs with and the
/// text of the CA certificate it was read from, if any. Its fields are private
/// and only the wrappers below make one, each filling `public_key` from the
/// key it moves into the issuer.
#[derive(Debug)]
pub struct AuthorityIssuer {
    issuer: Issuer<'static, KeyPair>,
    public_key: Vec<u8>,
    ca_pem: Option<String>,
}

impl AuthorityIssuer {
    /// The public key (SubjectPublicKeyInfo DER) of the key the issuer signs with.
    pub closed spec fn public_key(&self) -> Seq<u8> {
        self.public_key@
    }

    /// The name (DER) the issuer writes as the issuer of what it signs.
    pub closed spec fn name(&self) -> Seq<u8> {
        match self.ca_pem {
            Some(pem) => ca_pem_issuer_name(pem@),
            None => default_subject_name(),
        }
    }
}

/// `rcgen::Issuer::new`: an issuer built from the authority's parameters,
/// signing with `key`; its name is the parameters' name, rcgen's default.
#[verifier::external_body]
pub fn issuer_new(p: &CertParams, key: KeyMaterial) -> (res: AuthorityIssuer)
    requires
        signable(*p),
    ensures
        res.public_key() == key.public_key(),
        res.name() == default_subject_name(),
{
    AuthorityIssuer { issuer: Issuer::new(rcgen_params(p), key.key), public_key: key.public_key, ca_pem: None }
}

/// `rcgen::Issuer::from_ca_cert_pem`: an issuer read from a CA certificate in
/// PEM text, signing with `key`. Whether it succeeds depends on the text
/// alone (the key is only stored).
#[verifier::external_body]
pub fn issuer_from_ca_cert_pem(pem: &str, key: KeyMaterial) -> (res: Result<AuthorityIssuer, rcgen::Error>)
    ensures
        res is Ok <==> ca_certificate_pem_readable(pem@),
        res matches Ok(i) ==> i.public_key() == key.public_key() && i.name() == ca_pem_issuer_name(pem@),
{
    let issuer = Issuer::from_ca_cert_pem(pem, key.key)?;
    Ok(AuthorityIssuer { issuer, public_key: key.public_key, ca_pem: Some(pem.to_owned()) })
}

/// A parsed PKCS#10 request with the DER it was parsed from. Its fields are
/// private and only `csr_from_der` makes one.
#[derive(Debug)]
pub struct ParsedCsr {
    params: CertificateSigningRequestParams,
    der: Vec<u8>,
}

impl ParsedCsr {
    /// The DER bytes the request was parsed from.
    pub closed spec fn der(&self) -> Seq<u8> {
        self.der@
    }
}

/// `rcgen::CertificateSigningRequestParams::from_der`: parses a PKCS#10
/// request and checks its self-signature; it succeeds exactly on the requests
/// it reads.
#[verifier::external_body]
pub fn csr_from_der(der: &[u8]) -> (res: Result<ParsedCsr, rcgen::Error>)
    ensures
        res is Ok <==> csr_der_readable(der@),
        res matches Ok(c) ==> c.der() == der@,
{
    let params = CertificateSigningRequestParams::from_der(&CertificateSigningRequestDer::from(der))?;
    Ok(ParsedCsr { params, der: der.to_vec() })
}

/// The DER bytes and PEM text of a freshly signed certificate.
pub struct SignedCertificate {
    pub der: Vec<u8>,
    pub pem: String,
}

/// A signed certificate whose PEM text decodes to its DER bytes.
pub open spec fn pem_matches(c: SignedCertificate) -> bool {
    pem_certificate_section(encode_utf8(c.pem@)) == Some(c.der@)
}

/// The certificate `der` states the SANs and policy of `p`.
pub open spec fn states_params(der: Seq<u8>, p: CertParams) -> bool {
    &&& certificate_policy(der) == Some(cert_policy_view(p.policy.view_policy()))
    &&& certificate_sans(der) == Some(view_sans(p.subject_alt_names@))
}

/// `rcgen::CertificateParams::self_signed` on `p` with `key`, returned as DER
/// (`Certificate::der`) and PEM (`Certificate::pem`, the PEM encoding of that
/// DER). The certificate states the SANs and policy of `p`, certifies `key`
/// for rcgen's default name, names that subject as its issuer and is signed
/// with `key`. The signature is
/// randomised; whether signing succeeds is left unstated.
#[verifier::external_body]
pub fn self_sign(p: &CertParams, key: &KeyMaterial) -> (res: Result<SignedCertificate, rcgen::Error>)
    requires
        signable(*p),
    ensures
        res matches Ok(c) ==> pem_matches(c) && states_params(c.der@, *p)
            && certificate_spki(c.der@) == Some(key.public_key())
            && certificate_subject(c.der@) == Some(default_subject_name())
            && certificate_issuer(c.der@) == certificate_subject(c.der@)
            && certificate_verifies_under(c.der@, key.public_key()),
{
    let cert = rcgen_params(p).self_signed(&key.key)?;
    Ok(SignedCertificate { der: cert.der().to_vec(), pem: cert.pem() })
}

/// `rcgen::CertificateParams::signed_by`: a certificate stating the SANs and
/// policy of `p`, certifying `key` for rcgen's default name, naming `issuer`
/// as its issuer and signed by it (its signature verifies under the issuer's
/// key), returned as DER and PEM as `self_sign` does.
#[verifier::external_body]
pub fn sign_params(
    p: &CertParams,
    key: &KeyMaterial,
    issuer: &AuthorityIssuer,
) -> (res: Result<SignedCertificate, rcgen::Error>)
    requires
        signable(*p),
    ensures
        res matches Ok(c) ==> pem_matches(c) && states_params(c.der@, *p)
            && certificate_spki(c.der@) == Some(key.public_key())
            && certificate_subject(c.der@) == Some(default_subject_name())
            && certificate_issuer(c.der@) == Some(issuer.name())
            && certificate_verifies_under(c.der@, issuer.public_key()),
{
    let cert = rcgen_params(p).signed_by(&key.key, &issuer.issuer)?;
    Ok(SignedCertificate { der: cert.der().to_vec(), pem: cert.pem() })
}

/// `rcgen::CertificateSigningRequestParams::signed_by` after `policy` is
/// written over the request's parameters (`write_policy`): the certificate
/// states `policy` whatever the request asked for, certifies the request's
/// key for its subject and SANs, names `issuer` as its issuer and is signed
/// by it; returned as DER
/// and PEM as `self_sign` does.
#[verifier::external_body]
pub fn sign_csr_with_policy(
    csr: ParsedCsr,
    policy: &IssuancePolicy,
    issuer: &AuthorityIssuer,
) -> (res: Result<SignedCertificate, rcgen::Error>)
    requires
        policy_signable(*policy),
    ensures
        res matches Ok(c) ==> pem_matches(c)
            && certificate_policy(c.der@) == Some(cert_policy_view(policy.view_policy()))
            && certificate_spki(c.der@) == Some(csr_spki(csr.der()))
            && certificate_subject(c.der@) == Some(csr_subject(csr.der()))
            && certificate_sans(c.der@) == Some(csr_sans(csr.der()))
            && certificate_issuer(c.der@) == Some(issuer.name())
            && certificate_verifies_under(c.der@, issuer.public_key()),
{
    let mut params = csr.params;
    write_policy(&mut params.params, policy);
    let cert = params.signed_by(&issuer.issuer)?;
    Ok(SignedCertificate { der: cert.der().to_vec(), pem: cert.pem() })
}

/// `rcgen::CertificateParams::default` with the SANs and policy of `p`
/// written in.
#[verifier::external_body]
pub fn rcgen_params(p: &CertParams) -> (res: CertificateParams)
    requires
        signable(*p),
{
    let mut params = CertificateParams::default();
    params.subject_alt_names = rcgen_sans(&p.subject_alt_names);
    write_policy(&mut params, &p.policy);
    params
}

/// `rcgen::CertificateParams::default`: parameters with rcgen's defaults.
/// Nothing about them is observable here.
#[verifier::external_body]
pub fn default_certificate_params() -> (res: CertificateParams) {
    CertificateParams::default()
}

/// `rcgen::KeyPair::generate`: a fresh random ECDSA P-256 key pair. The outcome
/// rests on the system's random source, so nothing is stated of it.
#[verifier::external_body]
pub fn generate_key_pair() -> (res: Result<KeyPair, rcgen::Error>) {
    KeyPair::generate()
}

/// `time::OffsetDateTime::now_utc`, read as a Unix timestamp in seconds. The
/// value rests on the clock; every value it can take lies in the range of
/// dates that `time` represents.
#[verifier::external_body]
pub fn now_unix() -> (res: i64)
    ensures
        UNIX_TIME_MIN <= res <= UNIX_TIME_MAX,
{
    OffsetDateTime::now_utc().unix_timestamp()
}

/// `rcgen::CertificateParams::serialize_request`: a PKCS#10 request for `key`,
/// self-signed with it. Nothing is stated of the result.
#[verifier::external_body]
pub fn serialize_request(params: &CertificateParams, key: &KeyPair) -> (res: Result<CertificateSigningRequest, rcgen::Error>) {
    params.serialize_request(key)
}

/// `rcgen::CertificateSigningRequest::pem`, which always succeeds: its body
/// returns `Ok` with one `CERTIFICATE REQUEST` section, which decoding the
/// text with `rustls-pki-types` finds.
#[verifier::external_body]
pub fn csr_pem(csr: &CertificateSigningRequest) -> (res: Result<String, rcgen::Error>)
    ensures
        res is Ok,
        res matches Ok(pem) ==> pem_csr_section(encode_utf8(pem@)) is Some,
{
    csr.pem()
}

/// `<CertificateDer as PemObject>::from_pem_slice`: the DER bytes of the first
/// `CERTIFICATE` section of `pem`.
#[verifier::external_body]
pub fn pem_certificate(pem: &[u8]) -> (res: Result<Vec<u8>, rustls_pki_types::pem::Error>)
    ensures
        res is Ok <==> pem_certificate_section(pem@) is Some,
        res matches Ok(der) ==> pem_certificate_section(pem@) == Some(der@),
{
    CertificateDer::from_pem_slice(pem).map(|d| d.to_vec())
}

/// `<CertificateSigningRequestDer as PemObject>::from_pem_slice`: the DER bytes
/// of the first `CERTIFICATE REQUEST` section of `pem`.
#[verifier::external_body]
pub fn pem_csr(pem: &[u8]) -> (res: Result<Vec<u8>, rustls_pki_types::pem::Error>)
    ensures
        res is Ok <==> pem_csr_section(pem@) is Some,
        res matches Ok(der) ==> pem_csr_section(pem@) == Some(der@),
{
    CertificateSigningRequestDer::from_pem_slice(pem).map(|d| d.as_ref().to_vec())
}

/// The `Display` text of an `rcgen::Error`.
#[verifier::external_body]
pub fn rcgen_error_text(err: &rcgen::Error) -> (res: String) {
    format!("{}", err)
}

/// The `Display` text of a `rustls_pki_types::pem::Error`.
#[verifier::external_body]
pub fn pem_error_text(err: &rustls_pki_types::pem::Error) -> (res: String) {
    format!("{}", err)
}

} // verus!
