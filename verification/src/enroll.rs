//! Enrollment: a node sends a certificate signing request in PEM form and
//! receives its peer certificate in PEM form.
use vstd::prelude::*;

use crate::pki::{
    certifies_request, clock_out_of_range_text, issued_by, states_policy_of, CertificateAuthority,
    IssuedCertificate, PkiError,
};
use crate::profile::peer_policy;
use crate::routes::ResponseError;
use crate::x509::{
    csr_der_readable, pem_certificate_section, csr_pem, default_certificate_params, generate_key_pair, pem_csr,
    pem_csr_section, pem_error_text, serialize_request,
};
use rcgen::KeyPair;
use vstd::utf8::encode_utf8;

verus! {

/// The body of an enrollment request.
pub struct EnrollRequest {
    /// The certificate signing request, PEM encoded.
    pub csr: String,
}

/// The body of a successful enrollment.
pub struct EnrollResponse {
    /// The issued peer certificate, PEM encoded.
    pub pem: String,
}

/// The answer to an enrollment once the authority has tried to issue the
/// peer certificate: the issued certificate's PEM text, or the issuance error.
pub fn enroll_reply(issued: Result<IssuedCertificate, PkiError>) -> (res: Result<EnrollResponse, ResponseError>)
    ensures
        res is Ok <==> issued is Ok,
        res matches Ok(resp) ==> (issued matches Ok(c) && resp.pem@ == c.pem@),
        issued matches Err(e) && e is ClockOutOfRange ==> (res matches Err(r) && r.message@ == clock_out_of_range_text()),
{
    match issued {
        Ok(cert) => Ok(EnrollResponse { pem: cert.pem }),
        Err(e) => Err(ResponseError::from(e)),
    }
}

/// Answers an enrollment: decodes the first `CERTIFICATE REQUEST` section of
/// the request, has the authority sign it under the peer profile, and returns
/// the certificate in PEM form: it certifies the request's key, subject and
/// names and is signed by the authority. A request without such a section is refused.
pub fn enroll_handler(cert_auth: &CertificateAuthority, req: EnrollRequest) -> (res: Result<EnrollResponse, ResponseError>)
    ensures
        pem_csr_section(encode_utf8(req.csr@)) is None ==> res is Err,
        res is Ok ==> pem_csr_section(encode_utf8(req.csr@)) is Some,
        res is Ok ==> csr_der_readable(pem_csr_section(encode_utf8(req.csr@)).unwrap()),
        pem_csr_section(encode_utf8(req.csr@)) matches Some(der) && !csr_der_readable(der) ==> res is Err,
        res matches Ok(resp) ==> (pem_certificate_section(encode_utf8(resp.pem@)) matches Some(der)
            && states_policy_of(der, |t: int| peer_policy(t))
            && certifies_request(der, pem_csr_section(encode_utf8(req.csr@)).unwrap())
            && issued_by(der, *cert_auth)),
{
    let csr_der = match pem_csr(req.csr.as_str().as_bytes()) {
        Ok(der) => der,
        Err(e) => return Err(ResponseError::new(pem_error_text(&e))),
    };
    enroll_reply(cert_auth.issue_peer_csr(csr_der.as_slice()))
}

/// What a node sends to enroll: a fresh key pair, and a request for it built
/// from rcgen's default parameters and signed with that key, PEM encoded.
pub fn new_enroll_request() -> (res: Result<(EnrollRequest, KeyPair), PkiError>)
    ensures
        res matches Err(e) ==> (e is KeyGeneration || e is Signing),
        res matches Ok(r) ==> pem_csr_section(encode_utf8(r.0.csr@)) is Some,
{
    let params = default_certificate_params();
    let key_pair = match generate_key_pair() {
        Ok(k) => k,
        Err(e) => return Err(PkiError::KeyGeneration(e)),
    };
    let csr = match serialize_request(&params, &key_pair) {
        Ok(c) => c,
        Err(e) => return Err(PkiError::Signing(e)),
    };
    let pem = match csr_pem(&csr) {
        Ok(p) => p,
        Err(e) => return Err(PkiError::Signing(e)),
    };
    Ok((EnrollRequest { csr: pem }, key_pair))
}

} // verus!
