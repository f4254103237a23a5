//! Why a connection was given up.

use vstd::prelude::*;
use vstd::string::StringExecFns;
use crate::text::as_str;
use crate::text::decimal;
use crate::text::decimal_text;

verus! {

/// The reasons for which one connection's processing ends early.
#[derive(Clone, Debug, PartialEq, Eq)]
pub enum GatewayError {
    /// A peek returned `got` bytes where `wanted` were asked for.
    ShortPeek { got: usize, wanted: usize },
    /// The first record is not a handshake record.
    NotHandshake,
    /// The record declares a body of `size` bytes, above the ceiling `max`.
    HandshakeTooLarge { size: usize, max: usize },
    /// The record body does not decode as a handshake message.
    MalformedHandshake,
    /// The handshake message is not a ClientHello.
    NotClientHello,
    /// The ClientHello names no server.
    MissingSni,
    /// The first server name is not of the host-name type.
    UnsupportedNameType,
    /// The admission rule refused `host`.
    Rejected { host: String },
    /// `host` was admitted but has no address.
    ResolutionFailed { host: String },
    /// The transport failed; `cause` is what it reported.
    Transport { cause: String },
    /// An event was reported that the connection's stage does not wait for.
    UnexpectedEvent,
}

/// The mathematical value of a [`GatewayError`].
pub enum Failure {
    ShortPeek { got: usize, wanted: usize },
    NotHandshake,
    HandshakeTooLarge { size: usize, max: usize },
    MalformedHandshake,
    NotClientHello,
    MissingSni,
    UnsupportedNameType,
    Rejected { host: Seq<char> },
    ResolutionFailed { host: Seq<char> },
    Transport { cause: Seq<char> },
    UnexpectedEvent,
}

impl View for GatewayError {
    type V = Failure;

    open spec fn view(&self) -> Failure {
        match *self {
            GatewayError::ShortPeek { got, wanted } => Failure::ShortPeek { got, wanted },
            GatewayError::NotHandshake => Failure::NotHandshake,
            GatewayError::HandshakeTooLarge { size, max } => Failure::HandshakeTooLarge { size, max },
            GatewayError::MalformedHandshake => Failure::MalformedHandshake,
            GatewayError::NotClientHello => Failure::NotClientHello,
            GatewayError::MissingSni => Failure::MissingSni,
            GatewayError::UnsupportedNameType => Failure::UnsupportedNameType,
            GatewayError::Rejected { host } => Failure::Rejected { host: host@ },
            GatewayError::ResolutionFailed { host } => Failure::ResolutionFailed { host: host@ },
            GatewayError::Transport { cause } => Failure::Transport { cause: cause@ },
            GatewayError::UnexpectedEvent => Failure::UnexpectedEvent,
        }
    }
}

/// The text that describes a failure.
pub open spec fn failure_text(f: Failure) -> Seq<char> {
    match f {
        Failure::ShortPeek { got, wanted } => "Peek size mismatch: "@ + decimal_text(got as nat) + " != "@
            + decimal_text(wanted as nat),
        Failure::NotHandshake => "TLS message is not a handshake"@,
        Failure::HandshakeTooLarge { size, max } => "TLS handshake size is "@ + decimal_text(size as nat)
            + ", expected "@ + decimal_text(max as nat) + " max"@,
        Failure::MalformedHandshake => "TLS handshake is malformed"@,
        Failure::NotClientHello => "TLS handshake is not Client Hello"@,
        Failure::MissingSni => "Missing SNI"@,
        Failure::UnsupportedNameType => "Unknown SNI payload type"@,
        Failure::Rejected { host } => "Rejected "@ + host,
        Failure::ResolutionFailed { host } => "Failed to resolve "@ + host,
        Failure::Transport { cause } => cause,
        Failure::UnexpectedEvent => "Unexpected event"@,
    }
}

impl GatewayError {
    /// The human-readable cause, as it is reported for a dropped connection.
    pub fn message(&self) -> (text: String)
        ensures
            text@ == failure_text(self@),
    {
        match self {
            GatewayError::ShortPeek { got, wanted } => {
                let a = decimal(*got);
                let b = decimal(*wanted);
                String::from_str("Peek size mismatch: ").concat(a.as_str()).concat(" != ").concat(
                    b.as_str(),
                )
            },
            GatewayError::NotHandshake => String::from_str("TLS message is not a handshake"),
            GatewayError::HandshakeTooLarge { size, max } => {
                let a = decimal(*size);
                let b = decimal(*max);
                String::from_str("TLS handshake size is ").concat(a.as_str()).concat(
                    ", expected ",
                ).concat(b.as_str()).concat(" max")
            },
            GatewayError::MalformedHandshake => String::from_str("TLS handshake is malformed"),
            GatewayError::NotClientHello => String::from_str("TLS handshake is not Client Hello"),
            GatewayError::MissingSni => String::from_str("Missing SNI"),
            GatewayError::UnsupportedNameType => String::from_str("Unknown SNI payload type"),
            GatewayError::Rejected { host } => String::from_str("Rejected ").concat(host.as_str()),
            GatewayError::ResolutionFailed { host } => String::from_str("Failed to resolve ").concat(
                host.as_str(),
            ),
            GatewayError::Transport { cause } => as_str(cause.as_str()),
            GatewayError::UnexpectedEvent => String::from_str("Unexpected event"),
        }
    }
}

} // verus!
