use vstd::prelude::*;

use crate::stream::{StreamState, TlsKind};

verus! {

/// Whether a name is a syntactically valid reference DNS name, as the
/// certificate verifier of the rustls backend judges it.
pub uninterp spec fn is_reference_dns_name(name: Seq<char>) -> bool;

/// Relies on webpki::DNSNameRef::try_from_ascii_str: it accepts exactly the
/// syntactically valid reference DNS names, judged on the text alone, and
/// rejects every name longer than 253 bytes.
#[verifier::external_body]
fn dns_name_is_valid(name: &str) -> (r: bool)
    ensures
        r == is_reference_dns_name(name@),
        name@.len() > 253 ==> !r,
{
    webpki::DNSNameRef::try_from_ascii_str(name).is_ok()
}

/// What an upgrade is configured with: the domain to verify the peer against,
/// and which secure-transport implementation performs the handshake.
pub struct TlsParameters {
    domain: String,
    kind: TlsKind,
}

impl TlsParameters {
    pub closed spec fn domain_view(&self) -> Seq<char> {
        self.domain@
    }

    pub closed spec fn kind_view(&self) -> TlsKind {
        self.kind
    }

    pub fn new(domain: String, kind: TlsKind) -> (r: Self)
        ensures
            r.domain_view() == domain@,
            r.kind_view() == kind,
    {
        TlsParameters { domain, kind }
    }

    pub fn domain(&self) -> (r: &str)
        ensures
            r@ == self.domain_view(),
    {
        self.domain.as_str()
    }

    pub fn kind(&self) -> (r: TlsKind)
        ensures
            r == self.kind_view(),
    {
        self.kind
    }

    /// Whether the domain is acceptable to the chosen implementation: the
    /// rustls backend needs a valid DNS name before it builds a session;
    /// native-tls judges the name during the handshake itself.
    pub fn domain_is_acceptable(&self) -> (r: bool)
        ensures
            r == domain_acceptable(self.kind_view(), self.domain_view()),
    {
        match self.kind {
            TlsKind::Rustls => dns_name_is_valid(self.domain.as_str()),
            TlsKind::NativeTls => true,
        }
    }
}

/// The acceptance rule of `domain_is_acceptable`.
pub open spec fn domain_acceptable(kind: TlsKind, domain: Seq<char>) -> bool {
    kind is NativeTls || is_reference_dns_name(domain)
}

/// The course an upgrade takes from a given state.
#[derive(Debug, Clone, Copy, PartialEq, Eq, Structural)]
pub enum UpgradePlan {
    /// Already encrypted: nothing to do, success.
    AlreadyEncrypted,
    /// Left unusable by an earlier failure: refuse.
    Closed,
    /// No connector for the requested kind: refuse, stream stays plain.
    Unsupported,
    /// The connector rejects the domain before any handshake.
    InvalidName,
    /// Hand the raw transport to the connector.
    Handshake,
}

/// The plan for an upgrade, from the stream's state, whether a connector is
/// available for the requested kind, and whether it accepts the domain.
pub open spec fn upgrade_plan_spec(state: StreamState, has_connector: bool, name_ok: bool) -> UpgradePlan {
    match state {
        StreamState::Encrypted(_) => UpgradePlan::AlreadyEncrypted,
        StreamState::Unusable => UpgradePlan::Closed,
        StreamState::Plain => if !has_connector {
            UpgradePlan::Unsupported
        } else if !name_ok {
            UpgradePlan::InvalidName
        } else {
            UpgradePlan::Handshake
        },
    }
}

pub fn plan_upgrade(state: StreamState, has_connector: bool, name_ok: bool) -> (r: UpgradePlan)
    ensures
        r == upgrade_plan_spec(state, has_connector, name_ok),
{
    match state {
        StreamState::Encrypted(_) => UpgradePlan::AlreadyEncrypted,
        StreamState::Unusable => UpgradePlan::Closed,
        StreamState::Plain => if !has_connector {
            UpgradePlan::Unsupported
        } else if !name_ok {
            UpgradePlan::InvalidName
        } else {
            UpgradePlan::Handshake
        },
    }
}

/// Upgrading twice with the same parameters comes to the same as upgrading
/// once. An upgrade that succeeds leaves the stream encrypted, and from an
/// encrypted stream the plan is, whatever the parameters, the no-op that
/// `upgrade_tls` carries out by succeeding and leaving the stream as it is.
pub proof fn lemma_upgrade_of_encrypted_is_noop(kind: TlsKind, has_connector: bool, name_ok: bool)
    ensures
        upgrade_plan_spec(StreamState::Encrypted(kind), has_connector, name_ok) == UpgradePlan::AlreadyEncrypted,
{
}

} // verus!
