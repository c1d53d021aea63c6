//! The certificate authority: creating or loading it, and issuing server and
//! peer certificates under the issuance profiles.
use vstd::prelude::*;

use crate::profile::{
    ca_policy, datable, leaf_policy, peer_policy, CaKind, IssuancePolicy, Profile,
    CERT_TIME_MIN, CLOCK_SKEW_SECONDS, SECONDS_PER_DAY, UNIX_TIME_MAX,
};
use crate::x509::{
    all_ascii, ca_certificate_pem_readable, ca_pem_issuer_name, cert_policy_view, certificate_issuer,
    certificate_policy, certificate_sans, certificate_spki, certificate_subject,
    certificate_verifies_under, csr_der_readable, csr_from_der, csr_sans, csr_spki, csr_subject,
    generate_key_material, is_ascii_text, issuer_from_ca_cert_pem, issuer_new,
    key_material_from_pem, key_material_pem, key_pem_public_key, key_pem_readable,
    new_certificate_sans, pem_certificate, pem_certificate_section, pem_error_text, pem_matches,
    rcgen_error_text, san_of, self_sign, sign_csr_with_policy, sign_params, signable, view_sans,
    pkcs8_public_key, AuthorityIssuer, CertParams, KeyMaterial, SignedCertificate,
};
use vstd::utf8::encode_utf8;

verus! {

/// Why an issuance step failed.
#[derive(Debug)]
pub enum PkiError {
    /// The clock reads a time at which the certificate's dates cannot be written.
    ClockOutOfRange,
    /// A subject alternative name was refused.
    InvalidSubjectAltName(rcgen::Error),
    /// No key pair could be generated.
    KeyGeneration(rcgen::Error),
    /// Signing a certificate failed.
    Signing(rcgen::Error),
    /// The certificate signing request could not be read or its signature is wrong.
    InvalidCsr(rcgen::Error),
    /// The authority's private key could not be read.
    InvalidCaKey(rcgen::Error),
    /// The authority's certificate could not be read as a CA certificate.
    InvalidCaCertificate(rcgen::Error),
    /// PEM text held no section of the expected kind.
    InvalidPem(rustls_pki_types::pem::Error),
}

/// The text shown for a clock that cannot date a certificate.
pub open spec fn clock_out_of_range_text() -> Seq<char> {
    "the system clock is outside the range of certificate dates"@
}

impl PkiError {
    /// The human-readable text of the error: the outside error's own text, or
    /// a fixed sentence for `ClockOutOfRange`.
    pub fn message(&self) -> (res: String)
        ensures
            self is ClockOutOfRange ==> res@ == clock_out_of_range_text(),
    {
        match self {
            PkiError::ClockOutOfRange => {
                let s = String::from_str("the system clock is outside the range of certificate dates");
                proof {
                    reveal_strlit("the system clock is outside the range of certificate dates");
                }
                s
            },
            PkiError::InvalidSubjectAltName(e) => rcgen_error_text(e),
            PkiError::KeyGeneration(e) => rcgen_error_text(e),
            PkiError::Signing(e) => rcgen_error_text(e),
            PkiError::InvalidCsr(e) => rcgen_error_text(e),
            PkiError::InvalidCaKey(e) => rcgen_error_text(e),
            PkiError::InvalidCaCertificate(e) => rcgen_error_text(e),
            PkiError::InvalidPem(e) => pem_error_text(e),
        }
    }
}

/// Lifetime of the authority's certificate, in seconds.
pub open spec fn ca_ttl() -> int { 365 * 10 * SECONDS_PER_DAY }

/// Lifetime of the control plane's server certificate, in seconds.
pub open spec fn leaf_ttl() -> int { 90 * SECONDS_PER_DAY }

/// Lifetime of an enrolled peer's certificate, in seconds.
pub open spec fn peer_ttl() -> int { 30 * SECONDS_PER_DAY }

/// Whether a certificate of lifetime `ttl` can be dated at `now`, decided.
pub fn can_date(ttl: i64, now: i64) -> (res: bool)
    ensures
        res == datable(ttl as int, now as int),
{
    now >= CERT_TIME_MIN + CLOCK_SKEW_SECONDS && now <= UNIX_TIME_MAX
        && ttl <= UNIX_TIME_MAX - now && ttl >= CERT_TIME_MIN - now
}

/// The certificate `der` states the subject alternative names `sans`, in
/// order, and the policy `policy`.
pub open spec fn states(der: Seq<u8>, sans: Seq<(bool, Seq<u8>)>, policy: crate::profile::PolicyView) -> bool {
    &&& certificate_policy(der) == Some(cert_policy_view(policy))
    &&& certificate_sans(der) == Some(sans)
}

/// The certificate `der` states the policy that `policy_at` gives for some
/// time: the time its validity starts, plus the clock skew.
pub open spec fn states_policy_of(der: Seq<u8>, policy_at: spec_fn(int) -> crate::profile::PolicyView) -> bool {
    certificate_policy(der) matches Some(p) && p == cert_policy_view(policy_at(p.0 + CLOCK_SKEW_SECONDS))
}

impl Profile {
    /// Certificate parameters for `subject_alt_names` with this profile's
    /// policy at time `now`: one SAN per name, in order (an IP address when the
    /// name reads as one, a DNS name otherwise). Fails exactly when a name is
    /// not ASCII.
    pub fn params(&self, subject_alt_names: Vec<String>, now: i64) -> (res: Result<CertParams, PkiError>)
        requires
            datable(self.ttl_seconds as int, now as int),
        ensures
            res is Ok <==> all_ascii(subject_alt_names@),
            res matches Err(e) ==> e is InvalidSubjectAltName,
            res matches Ok(p) ==> signable(p)
                && view_sans(p.subject_alt_names@) == subject_alt_names@.map_values(|n: String| san_of(n@))
                && p.policy.view_policy() == self.policy_at(now as int),
    {
        let sans = match new_certificate_sans(subject_alt_names) {
            Ok(s) => s,
            Err(e) => return Err(PkiError::InvalidSubjectAltName(e)),
        };
        let mut policy = IssuancePolicy {
            not_before: 0,
            not_after: 0,
            is_ca: CaKind::ExplicitNoCa,
            key_usages: Vec::new(),
            extended_key_usages: Vec::new(),
        };
        self.apply(&mut policy, now);
        let params = CertParams { subject_alt_names: sans, policy };
        proof {
            assert(view_sans(params.subject_alt_names@) =~= subject_alt_names@.map_values(|n: String| san_of(n@)));
            assert forall|i: int| 0 <= i < params.subject_alt_names@.len() implies (#[trigger] params.subject_alt_names@[i]).writable() by {
                assert(params.subject_alt_names@[i].view_san() == san_of(subject_alt_names@[i]@));
            }
        }
        Ok(params)
    }
}

/// The PEM files that make up an authority on disk.
pub struct AuthorityFiles {
    pub cert_pem: String,
    pub key_pem: String,
}

/// A certificate the authority issued: its DER bytes and PEM text.
pub type IssuedCertificate = SignedCertificate;

/// The SAN list made of the single name `san`.
pub open spec fn single_san(san: Seq<char>) -> Seq<(bool, Seq<u8>)> {
    seq![san_of(san)]
}

/// One name, as the list `params` takes.
fn one_name(san: &str) -> (res: Vec<String>)
    ensures
        res@.len() == 1,
        res@[0]@ == san@,
        all_ascii(res@) <==> is_ascii_text(san@),
        res@.map_values(|n: String| san_of(n@)) == single_san(san@),
{
    let mut names: Vec<String> = Vec::new();
    names.push(san.to_owned());
    proof {
        assert(names@.map_values(|n: String| san_of(n@)) =~= single_san(san@));
    }
    names
}

/// The certificate `der` is self-signed under the public key `spki`: it
/// certifies that key, names its own subject as its issuer, and its signature
/// verifies under that key.
pub open spec fn self_signed_under(der: Seq<u8>, spki: Seq<u8>) -> bool {
    &&& certificate_spki(der) == Some(spki)
    &&& certificate_subject(der) is Some
    &&& certificate_issuer(der) == certificate_subject(der)
    &&& certificate_verifies_under(der, spki)
}

/// The self-signed certificate authority of the mesh.
#[derive(Debug)]
pub struct CertificateAuthority {
    der: Vec<u8>,
    issuer: AuthorityIssuer,
}

/// The files `files` hold the authority `ca`: the certificate file decodes to
/// its certificate and the key file holds the key it signs with.
pub open spec fn files_hold(ca: CertificateAuthority, files: AuthorityFiles) -> bool {
    &&& pem_certificate_section(encode_utf8(files.cert_pem@)) == Some(ca.cert_der())
    &&& key_pem_public_key(files.key_pem@) == Some(ca.signing_key())
}

/// `ca` is a newly made authority whose files are `files`: its certificate is
/// self-signed under the key it signs with, its subject is the name it issues
/// under, and the files hold it.
pub open spec fn fresh_authority(ca: CertificateAuthority, files: AuthorityFiles) -> bool {
    &&& self_signed_under(ca.cert_der(), ca.signing_key())
    &&& certificate_subject(ca.cert_der()) == Some(ca.issuer_name())
    &&& files_hold(ca, files)
}

/// `ca` was read from the PEM texts `cert_pem` and `key_pem`: its certificate
/// is the first `CERTIFICATE` section of `cert_pem`, which reads as a CA
/// certificate, it signs with the key of `key_pem`, and it issues under the
/// name rcgen reads from `cert_pem`.
pub open spec fn loaded_from(ca: CertificateAuthority, cert_pem: Seq<char>, key_pem: Seq<char>) -> bool {
    &&& pem_certificate_section(encode_utf8(cert_pem)) == Some(ca.cert_der())
    &&& ca_certificate_pem_readable(cert_pem)
    &&& key_pem_public_key(key_pem) == Some(ca.signing_key())
    &&& ca.issuer_name() == ca_pem_issuer_name(cert_pem)
}

/// The PEM texts `cert_pem` and `key_pem` cannot make an authority: the
/// certificate text holds no certificate section, or none that reads as a CA
/// certificate, or the key text holds no key.
pub open spec fn unloadable(cert_pem: Seq<char>, key_pem: Seq<char>) -> bool {
    ||| pem_certificate_section(encode_utf8(cert_pem)) is None
    ||| !ca_certificate_pem_readable(cert_pem)
    ||| !key_pem_readable(key_pem)
}

/// There is nothing to open: no files, or files that cannot make an authority.
pub open spec fn nothing_to_open(existing: Option<(String, String)>) -> bool {
    match existing {
        None => true,
        Some(files) => unloadable(files.0@, files.1@),
    }
}

/// The certificate `der` was issued by `ca`: it names the authority's issuer
/// name as its issuer, and its signature verifies under the key the authority
/// signs with.
pub open spec fn issued_by(der: Seq<u8>, ca: CertificateAuthority) -> bool {
    &&& certificate_issuer(der) == Some(ca.issuer_name())
    &&& certificate_verifies_under(der, ca.signing_key())
}

/// The certificate `der` certifies what the PKCS#10 request `csr_der` asks
/// for: its public key, its subject and its subject alternative names.
pub open spec fn certifies_request(der: Seq<u8>, csr_der: Seq<u8>) -> bool {
    &&& certificate_spki(der) == Some(csr_spki(csr_der))
    &&& certificate_subject(der) == Some(csr_subject(csr_der))
    &&& certificate_sans(der) == Some(csr_sans(csr_der))
}

impl CertificateAuthority {
    /// The DER bytes of the authority's own certificate.
    pub closed spec fn cert_der(&self) -> Seq<u8> {
        self.der@
    }

    /// The public key (SubjectPublicKeyInfo DER) of the key the authority
    /// signs with.
    pub closed spec fn signing_key(&self) -> Seq<u8> {
        self.issuer.public_key()
    }

    /// The name (DER) the authority writes as the issuer of what it signs.
    pub closed spec fn issuer_name(&self) -> Seq<u8> {
        self.issuer.name()
    }

    /// The authority's certificate in DER form.
    pub fn ca_cert_der(&self) -> (res: &Vec<u8>)
        ensures
            res@ == self.cert_der(),
    {
        &self.der
    }

    /// Reads an authority from its certificate and key in PEM text. The
    /// authority's DER is the first `CERTIFICATE` section of `cert_pem`; when
    /// there is none the result is `InvalidPem`, and a key text that holds no
    /// key gives `InvalidCaKey`.
    pub fn load(cert_pem: &str, key_pem: &str) -> (res: Result<Self, PkiError>)
        ensures
            pem_certificate_section(encode_utf8(cert_pem@)) is None <==> res matches Err(PkiError::InvalidPem(_)),
            pem_certificate_section(encode_utf8(cert_pem@)) is Some && !key_pem_readable(key_pem@)
                ==> res matches Err(PkiError::InvalidCaKey(_)),
            res matches Err(PkiError::InvalidCaCertificate(_)) ==> !ca_certificate_pem_readable(cert_pem@),
            unloadable(cert_pem@, key_pem@) ==> res is Err,
            res matches Err(e) ==> (e is InvalidPem || e is InvalidCaKey || e is InvalidCaCertificate),
            res matches Ok(ca) ==> loaded_from(ca, cert_pem@, key_pem@),
    {
        let der = match pem_certificate(cert_pem.as_bytes()) {
            Ok(d) => d,
            Err(e) => return Err(PkiError::InvalidPem(e)),
        };
        let key = match key_material_from_pem(key_pem) {
            Ok(k) => k,
            Err(e) => return Err(PkiError::InvalidCaKey(e)),
        };
        let issuer = match issuer_from_ca_cert_pem(cert_pem, key) {
            Ok(i) => i,
            Err(e) => return Err(PkiError::InvalidCaCertificate(e)),
        };
        Ok(CertificateAuthority { der, issuer })
    }

    /// Creates a new self-signed authority for `san` at time `now` under the
    /// CA profile, with the PEM files to save: its certificate states `san`
    /// and the CA policy at `now`, is self-signed under a fresh key, and the
    /// files hold it and that key.
    pub fn generate_at(san: &str, now: i64) -> (res: Result<(Self, AuthorityFiles), PkiError>)
        ensures
            res matches Err(PkiError::ClockOutOfRange) <==> !datable(ca_ttl(), now as int),
            datable(ca_ttl(), now as int) && !is_ascii_text(san@) ==> res matches Err(PkiError::InvalidSubjectAltName(_)),
            res matches Err(PkiError::InvalidSubjectAltName(_)) ==> !is_ascii_text(san@),
            res matches Err(e) ==> (e is ClockOutOfRange || e is InvalidSubjectAltName || e is KeyGeneration || e is Signing),
            res matches Ok(r) ==> states(r.0.cert_der(), single_san(san@), ca_policy(now as int))
                && fresh_authority(r.0, r.1),
    {
        if !can_date(365 * 10 * SECONDS_PER_DAY, now) {
            return Err(PkiError::ClockOutOfRange);
        }
        let profile = Profile::ca();
        let params = profile.params(one_name(san), now)?;
        let key = match generate_key_material() {
            Ok(k) => k,
            Err(e) => return Err(PkiError::KeyGeneration(e)),
        };
        let certificate = match self_sign(&params, &key) {
            Ok(c) => c,
            Err(e) => return Err(PkiError::Signing(e)),
        };
        let files = AuthorityFiles { cert_pem: certificate.pem, key_pem: key_material_pem(&key) };
        let issuer = issuer_new(&params, key);
        Ok((CertificateAuthority { der: certificate.der, issuer }, files))
    }

    /// Creates a new self-signed authority for `san` as `generate_at` does,
    /// dated by the system clock.
    pub fn generate(san: &str) -> (res: Result<(Self, AuthorityFiles), PkiError>)
        ensures
            !is_ascii_text(san@) ==> (res matches Err(e) && (e is InvalidSubjectAltName || e is ClockOutOfRange)),
            res matches Err(PkiError::InvalidSubjectAltName(_)) ==> !is_ascii_text(san@),
            res matches Err(e) ==> (e is ClockOutOfRange || e is InvalidSubjectAltName || e is KeyGeneration || e is Signing),
            res matches Ok(r) ==> certificate_sans(r.0.cert_der()) == Some(single_san(san@))
                && states_policy_of(r.0.cert_der(), |t: int| ca_policy(t))
                && fresh_authority(r.0, r.1),
    {
        Self::generate_at(san, crate::x509::now_unix())
    }

    /// Opens the authority given the outcome of loading it (`None` when there
    /// was nothing to load): a loaded authority is kept as it is, with nothing
    /// to save; otherwise a new one is made for `san` at time `now` as
    /// `generate_at` does and returned with its files to save. A failed load
    /// never surfaces.
    pub fn open_at(loaded: Option<Result<Self, PkiError>>, san: &str, now: i64) -> (res: Result<(Self, Option<AuthorityFiles>), PkiError>)
        ensures
            loaded matches Some(Ok(ca)) ==> (res matches Ok(r) && r.1 is None
                && r.0.cert_der() == ca.cert_der() && r.0.signing_key() == ca.signing_key()
                && r.0.issuer_name() == ca.issuer_name()),
            !(loaded matches Some(Ok(_))) ==> (res matches Ok(r) ==> (r.1 matches Some(files)
                && states(r.0.cert_der(), single_san(san@), ca_policy(now as int))
                && fresh_authority(r.0, files))),
            !(loaded matches Some(Ok(_))) ==> (res matches Err(PkiError::ClockOutOfRange) <==> !datable(ca_ttl(), now as int)),
            !(loaded matches Some(Ok(_))) && datable(ca_ttl(), now as int) && !is_ascii_text(san@)
                ==> res matches Err(PkiError::InvalidSubjectAltName(_)),
            res matches Err(PkiError::InvalidSubjectAltName(_)) ==> !is_ascii_text(san@),
            res matches Err(e) ==> (e is ClockOutOfRange || e is InvalidSubjectAltName || e is KeyGeneration || e is Signing),
    {
        match loaded {
            Some(Ok(ca)) => Ok((ca, None)),
            _ => {
                let (ca, files) = Self::generate_at(san, now)?;
                Ok((ca, Some(files)))
            },
        }
    }

    /// Opens the authority: the one read from `existing` (certificate PEM and
    /// key PEM) when it loads, otherwise a new one for `san` at time `now`,
    /// returned with the files to save.
    pub fn init_at(existing: Option<(String, String)>, san: &str, now: i64) -> (res: Result<(Self, Option<AuthorityFiles>), PkiError>)
        ensures
            res matches Ok(r) ==> (r.1 is None ==> (existing matches Some(files) && loaded_from(r.0, files.0@, files.1@))),
            res matches Ok(r) ==> (r.1 matches Some(files) ==>
                states(r.0.cert_der(), single_san(san@), ca_policy(now as int))
                && fresh_authority(r.0, files)),
            nothing_to_open(existing) ==> (res matches Ok(r) ==> r.1 is Some),
            nothing_to_open(existing) ==> (res matches Err(PkiError::ClockOutOfRange) <==> !datable(ca_ttl(), now as int)),
            nothing_to_open(existing) && datable(ca_ttl(), now as int) && !is_ascii_text(san@)
                ==> res matches Err(PkiError::InvalidSubjectAltName(_)),
            res matches Err(PkiError::InvalidSubjectAltName(_)) ==> !is_ascii_text(san@),
            res matches Err(e) ==> (e is ClockOutOfRange || e is InvalidSubjectAltName || e is KeyGeneration || e is Signing),
    {
        let loaded = match &existing {
            Some((cert_pem, key_pem)) => Some(Self::load(cert_pem.as_str(), key_pem.as_str())),
            None => None,
        };
        Self::open_at(loaded, san, now)
    }

    /// Opens the authority as `init_at` does, dated by the system clock.
    pub fn init(existing: Option<(String, String)>, san: &str) -> (res: Result<(Self, Option<AuthorityFiles>), PkiError>)
        ensures
            res matches Ok(r) ==> (r.1 is None ==> (existing matches Some(files) && loaded_from(r.0, files.0@, files.1@))),
            res matches Ok(r) ==> (r.1 matches Some(files) ==>
                certificate_sans(r.0.cert_der()) == Some(single_san(san@))
                && states_policy_of(r.0.cert_der(), |t: int| ca_policy(t))
                && fresh_authority(r.0, files)),
            nothing_to_open(existing) ==> (res matches Ok(r) ==> r.1 is Some),
            nothing_to_open(existing) && !is_ascii_text(san@)
                ==> (res matches Err(e) && (e is ClockOutOfRange || e is InvalidSubjectAltName)),
            res matches Err(PkiError::InvalidSubjectAltName(_)) ==> !is_ascii_text(san@),
            res matches Err(e) ==> (e is ClockOutOfRange || e is InvalidSubjectAltName || e is KeyGeneration || e is Signing),
    {
        Self::init_at(existing, san, crate::x509::now_unix())
    }

    /// Issues the control plane's own server certificate for `san` at time
    /// `now` under the leaf profile, with its fresh key pair: the certificate
    /// states `san` and the leaf policy at `now`, certifies the returned key
    /// and is signed by this authority.
    pub fn issue_server_cert_at(&self, san: &str, now: i64) -> (res: Result<(IssuedCertificate, KeyMaterial), PkiError>)
        ensures
            res matches Err(PkiError::ClockOutOfRange) <==> !datable(leaf_ttl(), now as int),
            res is Ok ==> is_ascii_text(san@),
            datable(leaf_ttl(), now as int) && !is_ascii_text(san@)
                ==> (res matches Err(e) && (e is KeyGeneration || e is InvalidSubjectAltName)),
            res matches Err(PkiError::InvalidSubjectAltName(_)) ==> !is_ascii_text(san@),
            res matches Err(e) ==> (e is ClockOutOfRange || e is KeyGeneration || e is InvalidSubjectAltName || e is Signing),
            res matches Ok(r) ==> pem_matches(r.0) && states(r.0.der@, single_san(san@), leaf_policy(now as int))
                && certificate_spki(r.0.der@) == Some(r.1.public_key())
                && pkcs8_public_key(r.1.pkcs8()) == Some(r.1.public_key())
                && issued_by(r.0.der@, *self),
    {
        if !can_date(90 * SECONDS_PER_DAY, now) {
            return Err(PkiError::ClockOutOfRange);
        }
        let key = match generate_key_material() {
            Ok(k) => k,
            Err(e) => return Err(PkiError::KeyGeneration(e)),
        };
        let params = Profile::leaf().params(one_name(san), now)?;
        let cert = match sign_params(&params, &key, &self.issuer) {
            Ok(c) => c,
            Err(e) => return Err(PkiError::Signing(e)),
        };
        Ok((cert, key))
    }

    /// Issues the server certificate as `issue_server_cert_at` does, dated by
    /// the system clock.
    pub fn issue_server_cert(&self, san: &str) -> (res: Result<(IssuedCertificate, KeyMaterial), PkiError>)
        ensures
            res is Ok ==> is_ascii_text(san@),
            res matches Err(PkiError::InvalidSubjectAltName(_)) ==> !is_ascii_text(san@),
            res matches Err(e) ==> (e is ClockOutOfRange || e is KeyGeneration || e is InvalidSubjectAltName || e is Signing),
            res matches Ok(r) ==> pem_matches(r.0)
                && certificate_sans(r.0.der@) == Some(single_san(san@))
                && states_policy_of(r.0.der@, |t: int| leaf_policy(t))
                && certificate_spki(r.0.der@) == Some(r.1.public_key())
                && pkcs8_public_key(r.1.pkcs8()) == Some(r.1.public_key())
                && issued_by(r.0.der@, *self),
    {
        self.issue_server_cert_at(san, crate::x509::now_unix())
    }

    /// Signs a peer's certificate signing request (DER) at time `now`: the
    /// certificate certifies the request's key, subject and names, is signed
    /// by this authority and, whatever the request asks for, states the peer
    /// policy at `now`.
    pub fn issue_peer_csr_at(&self, csr_der: &[u8], now: i64) -> (res: Result<IssuedCertificate, PkiError>)
        ensures
            res matches Err(PkiError::ClockOutOfRange) <==> !datable(peer_ttl(), now as int),
            res matches Err(e) ==> (e is ClockOutOfRange || e is InvalidCsr || e is Signing),
            datable(peer_ttl(), now as int) ==> (res matches Err(PkiError::InvalidCsr(_)) <==> !csr_der_readable(csr_der@)),
            res matches Ok(c) ==> pem_matches(c)
                && certificate_policy(c.der@) == Some(cert_policy_view(peer_policy(now as int)))
                && certifies_request(c.der@, csr_der@)
                && issued_by(c.der@, *self),
    {
        if !can_date(30 * SECONDS_PER_DAY, now) {
            return Err(PkiError::ClockOutOfRange);
        }
        let csr = match csr_from_der(csr_der) {
            Ok(c) => c,
            Err(e) => return Err(PkiError::InvalidCsr(e)),
        };
        let mut policy = IssuancePolicy {
            not_before: 0,
            not_after: 0,
            is_ca: CaKind::ExplicitNoCa,
            key_usages: Vec::new(),
            extended_key_usages: Vec::new(),
        };
        Profile::peer().apply(&mut policy, now);
        match sign_csr_with_policy(csr, &policy, &self.issuer) {
            Ok(c) => Ok(c),
            Err(e) => Err(PkiError::Signing(e)),
        }
    }

    /// Signs a peer's request as `issue_peer_csr_at` does, dated by the system clock.
    pub fn issue_peer_csr(&self, csr_der: &[u8]) -> (res: Result<IssuedCertificate, PkiError>)
        ensures
            res matches Err(e) ==> (e is ClockOutOfRange || e is InvalidCsr || e is Signing),
            res matches Err(PkiError::InvalidCsr(_)) ==> !csr_der_readable(csr_der@),
            !csr_der_readable(csr_der@) ==> (res matches Err(e) && (e is ClockOutOfRange || e is InvalidCsr)),
            res matches Ok(c) ==> pem_matches(c) && states_policy_of(c.der@, |t: int| peer_policy(t))
                && certifies_request(c.der@, csr_der@)
                && issued_by(c.der@, *self),
    {
        self.issue_peer_csr_at(csr_der, crate::x509::now_unix())
    }
}

/// Reading back the files of a new authority gives that authority again:
/// whatever loads from them has its certificate and signs with its key.
pub proof fn lemma_reload_gives_same_authority(
    ca: CertificateAuthority,
    files: AuthorityFiles,
    reloaded: CertificateAuthority,
)
    requires
        fresh_authority(ca, files),
        loaded_from(reloaded, files.cert_pem@, files.key_pem@),
    ensures
        reloaded.cert_der() == ca.cert_der(),
        reloaded.signing_key() == ca.signing_key(),
{
}

/// A certificate issued by a newly made authority names the authority's own
/// certificate subject as its issuer and verifies under the public key that
/// certificate carries.
pub proof fn lemma_issued_by_fresh_authority(ca: CertificateAuthority, files: AuthorityFiles, der: Seq<u8>)
    requires
        fresh_authority(ca, files),
        issued_by(der, ca),
    ensures
        certificate_issuer(der) == certificate_subject(ca.cert_der()),
        certificate_spki(ca.cert_der()) matches Some(spki) && certificate_verifies_under(der, spki),
{
}

} // verus!
