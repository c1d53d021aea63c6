//! Issuance profiles: how long a certificate lives and what it may be used for.
use vstd::prelude::*;

verus! {

/// Earliest Unix timestamp (in seconds) that a certificate date can hold:
/// -9999-01-01T00:00:00Z.
pub const UNIX_TIME_MIN: i64 = -377705116800;

/// Latest Unix timestamp (in seconds) that a certificate date can hold:
/// 9999-12-31T23:59:59Z.
pub const UNIX_TIME_MAX: i64 = 253402300799;

/// Earliest Unix timestamp (in seconds) that a certificate can state:
/// 0000-01-01T00:00:00Z. ASN.1 `GeneralizedTime` has no earlier year, and
/// rcgen's encoder panics on one.
pub const CERT_TIME_MIN: i64 = -62167219200;

/// How far back `not_before` is set, to tolerate clocks that run behind.
pub const CLOCK_SKEW_SECONDS: i64 = 3600;

/// Seconds in a day.
pub const SECONDS_PER_DAY: i64 = 86400;

/// The basic-constraints setting a profile puts on a certificate.
#[derive(Clone, Copy, Debug, PartialEq, Eq, Structural)]
pub enum CaKind {
    /// A certificate authority without a path-length limit.
    Unconstrained,
    /// Explicitly not a certificate authority.
    ExplicitNoCa,
}

/// Key usages that the profiles grant.
#[derive(Clone, Copy, Debug, PartialEq, Eq, Structural)]
pub enum KeyUsage {
    DigitalSignature,
    KeyCertSign,
    CrlSign,
}

/// Extended key usages that the profiles grant.
#[derive(Clone, Copy, Debug, PartialEq, Eq, Structural)]
pub enum ExtKeyUsage {
    ClientAuth,
    ServerAuth,
}

/// What a profile writes into certificate parameters.
pub struct IssuancePolicy {
    pub not_before: i64,
    pub not_after: i64,
    pub is_ca: CaKind,
    pub key_usages: Vec<KeyUsage>,
    pub extended_key_usages: Vec<ExtKeyUsage>,
}

/// An issuance profile.
pub struct Profile {
    pub ttl_seconds: i64,
    pub is_ca: CaKind,
    pub key_usages: Vec<KeyUsage>,
    pub extended_key_usages: Vec<ExtKeyUsage>,
}

/// The extended key usages of every end-entity certificate.
pub open spec fn end_entity_eku() -> Seq<ExtKeyUsage> {
    seq![ExtKeyUsage::ClientAuth, ExtKeyUsage::ServerAuth]
}

/// `now` is a time at which a certificate of lifetime `ttl` can be dated:
/// both `now - CLOCK_SKEW_SECONDS` and `now + ttl` are dates a certificate
/// can state.
pub open spec fn datable(ttl: int, now: int) -> bool {
    &&& CERT_TIME_MIN + CLOCK_SKEW_SECONDS <= now <= UNIX_TIME_MAX
    &&& CERT_TIME_MIN <= now + ttl <= UNIX_TIME_MAX
}

/// A policy as plain values: not before, not after, basic constraints, key
/// usages, extended key usages.
pub type PolicyView = (int, int, CaKind, Seq<KeyUsage>, Seq<ExtKeyUsage>);

/// The policy the authority profile writes at time `now`.
pub open spec fn ca_policy(now: int) -> PolicyView {
    (now - CLOCK_SKEW_SECONDS, now + 365 * 10 * SECONDS_PER_DAY, CaKind::Unconstrained,
        seq![KeyUsage::KeyCertSign, KeyUsage::CrlSign], Seq::empty())
}

/// The policy the server leaf profile writes at time `now`.
pub open spec fn leaf_policy(now: int) -> PolicyView {
    (now - CLOCK_SKEW_SECONDS, now + 90 * SECONDS_PER_DAY, CaKind::ExplicitNoCa,
        seq![KeyUsage::DigitalSignature], end_entity_eku())
}

/// The policy the peer profile writes at time `now`.
pub open spec fn peer_policy(now: int) -> PolicyView {
    (now - CLOCK_SKEW_SECONDS, now + 30 * SECONDS_PER_DAY, CaKind::ExplicitNoCa,
        seq![KeyUsage::DigitalSignature], end_entity_eku())
}

impl IssuancePolicy {
    /// The policy's fields as plain values.
    pub open spec fn view_policy(&self) -> PolicyView {
        (self.not_before as int, self.not_after as int, self.is_ca, self.key_usages@, self.extended_key_usages@)
    }
}

impl Profile {
    /// The profile of the self-signed authority: ten years, an unconstrained CA
    /// that may sign certificates and revocation lists.
    pub fn ca() -> (p: Profile)
        ensures
            p.ttl_seconds == 365 * 10 * SECONDS_PER_DAY,
            p.is_ca == CaKind::Unconstrained,
            p.key_usages@ == seq![KeyUsage::KeyCertSign, KeyUsage::CrlSign],
            p.extended_key_usages@ == Seq::<ExtKeyUsage>::empty(),
            forall|now: int| #[trigger] p.policy_at(now) == ca_policy(now),
    {
        Profile {
            ttl_seconds: 365 * 10 * SECONDS_PER_DAY,
            is_ca: CaKind::Unconstrained,
            key_usages: vec![KeyUsage::KeyCertSign, KeyUsage::CrlSign],
            extended_key_usages: Vec::new(),
        }
    }

    /// The shape shared by leaf and peer certificates, with no lifetime of its own.
    pub fn end_entity() -> (p: Profile)
        ensures
            p.ttl_seconds == 0,
            p.is_ca == CaKind::ExplicitNoCa,
            p.key_usages@ == seq![KeyUsage::DigitalSignature],
            p.extended_key_usages@ == end_entity_eku(),
    {
        Profile {
            ttl_seconds: 0,
            is_ca: CaKind::ExplicitNoCa,
            key_usages: vec![KeyUsage::DigitalSignature],
            extended_key_usages: vec![ExtKeyUsage::ClientAuth, ExtKeyUsage::ServerAuth],
        }
    }

    /// The control plane's own server certificate: an end entity for ninety days.
    pub fn leaf() -> (p: Profile)
        ensures
            p.ttl_seconds == 90 * SECONDS_PER_DAY,
            p.is_ca == CaKind::ExplicitNoCa,
            p.key_usages@ == seq![KeyUsage::DigitalSignature],
            p.extended_key_usages@ == end_entity_eku(),
            forall|now: int| #[trigger] p.policy_at(now) == leaf_policy(now),
    {
        let base = Profile::end_entity();
        Profile { ttl_seconds: 90 * SECONDS_PER_DAY, ..base }
    }

    /// An enrolled peer's certificate: an end entity for thirty days.
    pub fn peer() -> (p: Profile)
        ensures
            p.ttl_seconds == 30 * SECONDS_PER_DAY,
            p.is_ca == CaKind::ExplicitNoCa,
            p.key_usages@ == seq![KeyUsage::DigitalSignature],
            p.extended_key_usages@ == end_entity_eku(),
            forall|now: int| #[trigger] p.policy_at(now) == peer_policy(now),
    {
        let base = Profile::end_entity();
        Profile { ttl_seconds: 30 * SECONDS_PER_DAY, ..base }
    }

    /// The policy that this profile writes at time `now`.
    pub open spec fn policy_at(&self, now: int) -> PolicyView {
        (
            now - CLOCK_SKEW_SECONDS,
            now + self.ttl_seconds,
            self.is_ca,
            self.key_usages@,
            self.extended_key_usages@,
        )
    }

    /// Overwrites every field of `params` with this profile's policy at time
    /// `now`: valid from one hour before `now` until `ttl` after it, with the
    /// profile's constraints and usages. Nothing of the old `params` remains.
    pub fn apply(&self, params: &mut IssuancePolicy, now: i64)
        requires
            datable(self.ttl_seconds as int, now as int),
        ensures
            final(params).view_policy() == self.policy_at(now as int),
    {
        params.not_before = now - CLOCK_SKEW_SECONDS;
        params.not_after = now + self.ttl_seconds;
        params.is_ca = self.is_ca;
        params.key_usages = self.key_usages.clone();
        params.extended_key_usages = self.extended_key_usages.clone();
    }
}

/// A certificate dated under a profile with a positive lifetime is valid at
/// the moment it is dated: its window opens one hour before `now`, closes
/// `ttl` after it, and so lasts `ttl` plus the clock skew.
pub proof fn lemma_validity_window(p: Profile, now: int)
    requires
        p.ttl_seconds > 0,
    ensures
        p.policy_at(now).0 < now < p.policy_at(now).1,
        p.policy_at(now).1 - p.policy_at(now).0 == p.ttl_seconds + CLOCK_SKEW_SECONDS,
{
}

} // verus!
