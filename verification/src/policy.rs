//! The admission rule: which host names the gateway forwards, and where to.

use vstd::prelude::*;
use vstd::string::StringExecFns;
use crate::text::as_str;
use crate::text::ends_with;
use crate::text::has_suffix;
use crate::error::Failure;
use crate::error::GatewayError;
use crate::record::TLS_HANDSHAKE_MAX_LENGTH;

verus! {

/// The port of every outbound connection of the holohost gateway.
pub const DESTINATION_PORT: u16 = 443;

/// The immutable configuration of a gateway.
#[derive(Clone, Debug, PartialEq, Eq)]
pub struct RoutingPolicy {
    /// A host name is admitted if and only if it ends with this text.
    pub allowed_suffix: String,
    /// The port of the outbound connection.
    pub port: u16,
    /// The largest handshake body, in bytes, that is looked at.
    pub max_handshake: usize,
}

/// The mathematical value of a [`RoutingPolicy`].
pub struct PolicyModel {
    pub allowed_suffix: Seq<char>,
    pub port: u16,
    pub max_handshake: usize,
}

impl View for RoutingPolicy {
    type V = PolicyModel;

    open spec fn view(&self) -> PolicyModel {
        PolicyModel {
            allowed_suffix: self.allowed_suffix@,
            port: self.port,
            max_handshake: self.max_handshake,
        }
    }
}

/// The outcome of the admission rule for one host name.
#[derive(Clone, Debug, PartialEq, Eq)]
pub enum Decision {
    /// Forward to `host` on `port`.
    Admitted { host: String, port: u16 },
    /// Drop the connection, for the given reason.
    Rejected { reason: GatewayError },
}

/// The mathematical value of a [`Decision`].
pub enum DecisionModel {
    Admitted { host: Seq<char>, port: u16 },
    Rejected { reason: Failure },
}

impl View for Decision {
    type V = DecisionModel;

    open spec fn view(&self) -> DecisionModel {
        match *self {
            Decision::Admitted { host, port } => DecisionModel::Admitted { host: host@, port },
            Decision::Rejected { reason } => DecisionModel::Rejected { reason: reason@ },
        }
    }
}

/// The decision that `policy` takes on `host`: admitted on the policy's port
/// if the name ends with the allowed suffix, rejected with the name otherwise.
pub open spec fn decision_for(policy: PolicyModel, host: Seq<char>) -> DecisionModel {
    if has_suffix(host, policy.allowed_suffix) {
        DecisionModel::Admitted { host, port: policy.port }
    } else {
        DecisionModel::Rejected { reason: Failure::Rejected { host } }
    }
}

impl RoutingPolicy {
    /// The policy of the holohost gateway: names that end with
    /// `holohost.net`, port 443, handshakes of at most 2048 bytes.
    pub fn holohost() -> (policy: RoutingPolicy)
        ensures
            policy@ == (PolicyModel {
                allowed_suffix: "holohost.net"@,
                port: 443,
                max_handshake: 2048,
            }),
    {
        RoutingPolicy {
            allowed_suffix: String::from_str("holohost.net"),
            port: DESTINATION_PORT,
            max_handshake: TLS_HANDSHAKE_MAX_LENGTH,
        }
    }

    /// Whether the policy admits `host`.
    pub fn admits(&self, host: &str) -> (r: bool)
        ensures
            r == has_suffix(host@, self@.allowed_suffix),
    {
        ends_with(host, self.allowed_suffix.as_str())
    }

    /// Decides on `host`. The decision depends on the policy and the name
    /// alone.
    pub fn decide(&self, host: &str) -> (d: Decision)
        ensures
            d@ == decision_for(self@, host@),
    {
        if self.admits(host) {
            Decision::Admitted { host: as_str(host), port: self.port }
        } else {
            Decision::Rejected { reason: GatewayError::Rejected { host: as_str(host) } }
        }
    }
}

} // verus!
