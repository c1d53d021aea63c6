# weirctrl

The certificate authority and enrollment logic of a small mesh control plane,
verified with Verus.

- `src/profile.rs`: issuance profiles (authority, server leaf, enrolled peer)
  and the policy each writes: validity window, basic constraints, key usages.
- `src/x509.rs`: the trusted boundary to `rcgen`, `time` and
  `rustls-pki-types` (key generation, signing, PEM decoding), and the
  plain-value model of certificate parameters.
- `src/pki.rs`: the certificate authority: create, load, open, issue.
- `src/tls.rs`: the HTTPS endpoint's TLS settings as plain values (roots,
  served chain, key, ALPN) and the rustls configuration built from them.
- `src/enroll.rs`, `src/routes.rs`: the enrollment exchange and how failures
  are answered.
- `src/server.rs`: the decisions of the accept loop, of each connection and
  of the shutdown signal.
- `app/`: the `weirctrl` program: command line, files, sockets, axum routes.
