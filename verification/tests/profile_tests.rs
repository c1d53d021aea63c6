use weirctrl::profile::{
    CaKind, ExtKeyUsage, IssuancePolicy, KeyUsage, Profile, CLOCK_SKEW_SECONDS, SECONDS_PER_DAY,
    CERT_TIME_MIN, UNIX_TIME_MAX,
};
use weirctrl::pki::can_date;

fn blank_policy() -> IssuancePolicy {
    IssuancePolicy {
        not_before: 7,
        not_after: 3,
        is_ca: CaKind::Unconstrained,
        key_usages: vec![KeyUsage::CrlSign, KeyUsage::KeyCertSign],
        extended_key_usages: vec![ExtKeyUsage::ServerAuth],
    }
}

#[test]
fn ca_profile_is_ten_year_unconstrained_ca() {
    let p = Profile::ca();
    assert_eq!(p.ttl_seconds, 3650 * 86400);
    assert_eq!(p.is_ca, CaKind::Unconstrained);
    assert_eq!(p.key_usages, vec![KeyUsage::KeyCertSign, KeyUsage::CrlSign]);
    assert!(p.extended_key_usages.is_empty());
}

#[test]
fn leaf_and_peer_profiles_are_end_entities() {
    let leaf = Profile::leaf();
    let peer = Profile::peer();
    let ee = Profile::end_entity();
    assert_eq!(leaf.ttl_seconds, 90 * SECONDS_PER_DAY);
    assert_eq!(peer.ttl_seconds, 30 * SECONDS_PER_DAY);
    assert_eq!(ee.ttl_seconds, 0);
    for p in [&leaf, &peer, &ee] {
        assert_eq!(p.is_ca, CaKind::ExplicitNoCa);
        assert_eq!(p.key_usages, vec![KeyUsage::DigitalSignature]);
        assert_eq!(p.extended_key_usages, vec![ExtKeyUsage::ClientAuth, ExtKeyUsage::ServerAuth]);
    }
}

#[test]
fn apply_overwrites_every_field() {
    let now = 1_700_000_000;
    let mut params = blank_policy();
    Profile::peer().apply(&mut params, now);
    assert_eq!(params.not_before, now - 3600);
    assert_eq!(params.not_after, now + 30 * 86400);
    assert_eq!(params.is_ca, CaKind::ExplicitNoCa);
    assert_eq!(params.key_usages, vec![KeyUsage::DigitalSignature]);
    assert_eq!(params.extended_key_usages, vec![ExtKeyUsage::ClientAuth, ExtKeyUsage::ServerAuth]);
}

#[test]
fn apply_ignores_prior_values() {
    let now = 86_400;
    let mut a = blank_policy();
    let mut b = IssuancePolicy {
        not_before: -5,
        not_after: 99,
        is_ca: CaKind::ExplicitNoCa,
        key_usages: vec![],
        extended_key_usages: vec![],
    };
    Profile::ca().apply(&mut a, now);
    Profile::ca().apply(&mut b, now);
    assert_eq!(a.not_before, b.not_before);
    assert_eq!(a.not_after, b.not_after);
    assert_eq!(a.is_ca, b.is_ca);
    assert_eq!(a.key_usages, b.key_usages);
    assert_eq!(a.extended_key_usages, b.extended_key_usages);
}

#[test]
fn validity_window_contains_now() {
    let now = 1_000_000;
    for p in [Profile::ca(), Profile::leaf(), Profile::peer()] {
        let mut params = blank_policy();
        p.apply(&mut params, now);
        assert!(params.not_before < now && now < params.not_after);
        assert_eq!(params.not_after - params.not_before, p.ttl_seconds + CLOCK_SKEW_SECONDS);
    }
}

#[test]
fn can_date_edges() {
    assert!(can_date(0, CERT_TIME_MIN + 3600));
    assert!(!can_date(0, CERT_TIME_MIN + 3599));
    assert!(can_date(90 * 86400, UNIX_TIME_MAX - 90 * 86400));
    assert!(!can_date(90 * 86400, UNIX_TIME_MAX - 90 * 86400 + 1));
    assert!(can_date(3650 * 86400, 1_700_000_000));
}

#[test]
fn can_date_negative_lifetime() {
    assert!(can_date(-3600, 0));
    assert!(can_date(-3600, CERT_TIME_MIN + 3600));
    assert!(!can_date(-3601, CERT_TIME_MIN + 3600));
    assert!(!can_date(i64::MAX, 0));
    assert!(!can_date(i64::MIN, 0));
}
