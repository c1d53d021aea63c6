//! Certificate authority and enrollment logic of the `weirctrl` control plane.
//!
//! The crate issues X.509 certificates for a small mesh: a self-signed
//! authority, short-lived server certificates for the control plane's own
//! TLS endpoint, and peer certificates for nodes that enroll by sending a
//! certificate signing request.

pub mod profile;
pub mod x509;
pub mod pki;
pub mod tls;
pub mod tls_backend;
pub mod routes;
pub mod enroll;
pub mod server;
