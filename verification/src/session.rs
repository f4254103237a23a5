//! One connection, from the first peek to the relay, as a state machine. The
//! caller owns the sockets: it performs each [`Action`] and reports what came
//! of it as the next [`Event`]. Every decision is taken here.

use vstd::prelude::*;
use crate::error::Failure;
use crate::error::GatewayError;
use crate::handshake::sniff_hostname;
use crate::handshake::sniff_verdict;
use crate::policy::decision_for;
use crate::policy::Decision;
use crate::policy::DecisionModel;
use crate::policy::PolicyModel;
use crate::policy::RoutingPolicy;
use crate::record::check_peek;
use crate::record::header_verdict;
use crate::record::parse_record_header;
use crate::record::peek_verdict;
use crate::record::TLS_RECORD_HEADER_LENGTH;

verus! {

/// Where a connection stands.
#[derive(Clone, Debug, PartialEq, Eq)]
pub enum Stage {
    /// Accepted, nothing asked yet.
    Start,
    /// A peek of the record header is under way.
    AwaitHeader,
    /// A peek of the whole record is under way; the header announced
    /// `version` and a body of `length` bytes.
    AwaitHandshake { version: u16, length: u16 },
    /// `host` was admitted and is being resolved.
    Resolving { host: String },
    /// The outbound connection is being opened.
    Connecting,
    /// Bytes are relayed in both directions.
    Relaying,
    /// Finished or given up.
    Closed,
}

/// What the caller reports.
#[derive(Clone, Debug, PartialEq, Eq)]
pub enum Event {
    /// The connection was accepted.
    Accepted,
    /// A peek into `buf`, a buffer of the size asked for, filled in `filled`
    /// bytes.
    Peeked { buf: Vec<u8>, filled: usize },
    /// The host name has an address.
    Resolved,
    /// The host name has no address.
    Unresolved,
    /// The outbound connection is open.
    Connected,
    /// Both directions of the relay ended cleanly.
    RelayFinished,
    /// A peek, a connect or the relay failed.
    TransportFailed { cause: String },
}

/// What the caller is asked to do next.
#[derive(Clone, Debug, PartialEq, Eq)]
pub enum Action {
    /// Peek `size` bytes of the inbound connection, consuming none.
    Peek { size: usize },
    /// Resolve `host` on `port`.
    Resolve { host: String, port: u16 },
    /// Open the outbound connection to the resolved address.
    Connect,
    /// Relay between the two connections until both directions end.
    Relay,
    /// Report `error` and drop the connection.
    Fail { error: GatewayError },
    /// Drop the connection without a report.
    Finish,
}

/// The mathematical value of a [`Stage`].
pub enum StageModel {
    Start,
    AwaitHeader,
    AwaitHandshake { version: u16, length: u16 },
    Resolving { host: Seq<char> },
    Connecting,
    Relaying,
    Closed,
}

/// The mathematical value of an [`Event`].
pub enum EventModel {
    Accepted,
    Peeked { buf: Seq<u8>, filled: usize },
    Resolved,
    Unresolved,
    Connected,
    RelayFinished,
    TransportFailed { cause: Seq<char> },
}

/// The mathematical value of an [`Action`].
pub enum ActionModel {
    Peek { size: usize },
    Resolve { host: Seq<char>, port: u16 },
    Connect,
    Relay,
    Fail { error: Failure },
    Finish,
}

impl View for Stage {
    type V = StageModel;

    open spec fn view(&self) -> StageModel {
        match *self {
            Stage::Start => StageModel::Start,
            Stage::AwaitHeader => StageModel::AwaitHeader,
            Stage::AwaitHandshake { version, length } => StageModel::AwaitHandshake {
                version,
                length,
            },
            Stage::Resolving { host } => StageModel::Resolving { host: host@ },
            Stage::Connecting => StageModel::Connecting,
            Stage::Relaying => StageModel::Relaying,
            Stage::Closed => StageModel::Closed,
        }
    }
}

impl View for Event {
    type V = EventModel;

    open spec fn view(&self) -> EventModel {
        match *self {
            Event::Accepted => EventModel::Accepted,
            Event::Peeked { buf, filled } => EventModel::Peeked { buf: buf@, filled },
            Event::Resolved => EventModel::Resolved,
            Event::Unresolved => EventModel::Unresolved,
            Event::Connected => EventModel::Connected,
            Event::RelayFinished => EventModel::RelayFinished,
            Event::TransportFailed { cause } => EventModel::TransportFailed { cause: cause@ },
        }
    }
}

impl View for Action {
    type V = ActionModel;

    open spec fn view(&self) -> ActionModel {
        match *self {
            Action::Peek { size } => ActionModel::Peek { size },
            Action::Resolve { host, port } => ActionModel::Resolve { host: host@, port },
            Action::Connect => ActionModel::Connect,
            Action::Relay => ActionModel::Relay,
            Action::Fail { error } => ActionModel::Fail { error: error@ },
            Action::Finish => ActionModel::Finish,
        }
    }
}

/// Giving up with `error`.
pub open spec fn give_up(error: Failure) -> (StageModel, ActionModel) {
    (StageModel::Closed, ActionModel::Fail { error })
}

/// The size of the peek that takes in a whole record with a body of `length`
/// bytes: the header is peeked again in front of it.
pub open spec fn record_size(length: u16) -> usize {
    (5 + length) as usize
}

/// What follows the sniffing of a record: an admitted name is resolved, any
/// failure and any other name end the connection.
pub open spec fn routed(policy: PolicyModel, sniffed: Result<Seq<char>, Failure>) -> (
    StageModel,
    ActionModel,
) {
    match sniffed {
        Err(error) => give_up(error),
        Ok(name) => match decision_for(policy, name) {
            DecisionModel::Admitted { host, port } => (
                StageModel::Resolving { host },
                ActionModel::Resolve { host, port },
            ),
            DecisionModel::Rejected { reason } => give_up(reason),
        },
    }
}

/// What follows the peek of a record header.
pub open spec fn after_header(policy: PolicyModel, buf: Seq<u8>, filled: usize) -> (
    StageModel,
    ActionModel,
) {
    match peek_verdict(buf, filled, 5) {
        Err(error) => give_up(error),
        Ok(bytes) => match header_verdict(bytes, policy.max_handshake) {
            Err(error) => give_up(error),
            Ok(header) => (
                StageModel::AwaitHandshake { version: header.version, length: header.length },
                ActionModel::Peek { size: record_size(header.length) },
            ),
        },
    }
}

/// What follows the peek of a whole record.
pub open spec fn after_record(
    policy: PolicyModel,
    version: u16,
    length: u16,
    buf: Seq<u8>,
    filled: usize,
) -> (StageModel, ActionModel) {
    match peek_verdict(buf, filled, record_size(length)) {
        Err(error) => give_up(error),
        Ok(bytes) => routed(policy, sniff_verdict(bytes, version)),
    }
}

/// The next stage and the action to take when `event` is reported at `stage`.
/// A closed connection stays closed; a transport failure ends any other; an
/// event that the stage does not wait for ends the connection as well.
pub open spec fn step_model(policy: PolicyModel, stage: StageModel, event: EventModel) -> (
    StageModel,
    ActionModel,
) {
    match (stage, event) {
        (StageModel::Closed, _) => (StageModel::Closed, ActionModel::Finish),
        (_, EventModel::TransportFailed { cause }) => give_up(Failure::Transport { cause }),
        (StageModel::Start, EventModel::Accepted) => (
            StageModel::AwaitHeader,
            ActionModel::Peek { size: 5 },
        ),
        (StageModel::AwaitHeader, EventModel::Peeked { buf, filled }) => after_header(
            policy,
            buf,
            filled,
        ),
        (StageModel::AwaitHandshake { version, length }, EventModel::Peeked { buf, filled }) =>
            after_record(policy, version, length, buf, filled),
        (StageModel::Resolving { host }, EventModel::Resolved) => (
            StageModel::Connecting,
            ActionModel::Connect,
        ),
        (StageModel::Resolving { host }, EventModel::Unresolved) => give_up(
            Failure::ResolutionFailed { host },
        ),
        (StageModel::Connecting, EventModel::Connected) => (
            StageModel::Relaying,
            ActionModel::Relay,
        ),
        (StageModel::Relaying, EventModel::RelayFinished) => (
            StageModel::Closed,
            ActionModel::Finish,
        ),
        _ => give_up(Failure::UnexpectedEvent),
    }
}

/// Ends the connection with `error`.
fn fail(error: GatewayError) -> (r: (Stage, Action))
    ensures
        (r.0@, r.1@) == give_up(error@),
{
    (Stage::Closed, Action::Fail { error })
}

/// Routes a connection whose record has been sniffed: `sniffed` is the host
/// name found, or why none was.
pub fn route(policy: &RoutingPolicy, sniffed: Result<String, GatewayError>) -> (r: (Stage, Action))
    ensures
        match sniffed {
            Ok(name) => (r.0@, r.1@) == routed(policy@, Ok(name@)),
            Err(error) => (r.0@, r.1@) == routed(policy@, Err(error@)),
        },
{
    match sniffed {
        Err(error) => fail(error),
        Ok(name) => match policy.decide(name.as_str()) {
            Decision::Admitted { host, port } => {
                let target = host.clone();
                (Stage::Resolving { host }, Action::Resolve { host: target, port })
            },
            Decision::Rejected { reason } => fail(reason),
        },
    }
}

/// Advances one connection by one event.
pub fn step(policy: &RoutingPolicy, stage: Stage, event: Event) -> (r: (Stage, Action))
    ensures
        (r.0@, r.1@) == step_model(policy@, stage@, event@),
{
    match (stage, event) {
        (Stage::Closed, _) => (Stage::Closed, Action::Finish),
        (_, Event::TransportFailed { cause }) => fail(GatewayError::Transport { cause }),
        (Stage::Start, Event::Accepted) => (
            Stage::AwaitHeader,
            Action::Peek { size: TLS_RECORD_HEADER_LENGTH },
        ),
        (Stage::AwaitHeader, Event::Peeked { buf, filled }) => {
            match check_peek(buf, filled, TLS_RECORD_HEADER_LENGTH) {
                Err(error) => fail(error),
                Ok(bytes) => match parse_record_header(bytes.as_slice(), policy.max_handshake) {
                    Err(error) => fail(error),
                    Ok(header) => {
                        let body: usize = header.length as usize;
                        (
                            Stage::AwaitHandshake {
                                version: header.version,
                                length: header.length,
                            },
                            Action::Peek { size: TLS_RECORD_HEADER_LENGTH + body },
                        )
                    },
                },
            }
        },
        (Stage::AwaitHandshake { version, length }, Event::Peeked { buf, filled }) => {
            let body: usize = length as usize;
            match check_peek(buf, filled, TLS_RECORD_HEADER_LENGTH + body) {
                Err(error) => fail(error),
                Ok(bytes) => {
                    let sniffed = sniff_hostname(bytes.as_slice(), version);
                    route(policy, sniffed)
                },
            }
        },
        (Stage::Resolving { host }, Event::Resolved) => (Stage::Connecting, Action::Connect),
        (Stage::Resolving { host }, Event::Unresolved) => fail(
            GatewayError::ResolutionFailed { host },
        ),
        (Stage::Connecting, Event::Connected) => (Stage::Relaying, Action::Relay),
        (Stage::Relaying, Event::RelayFinished) => (Stage::Closed, Action::Finish),
        _ => fail(GatewayError::UnexpectedEvent),
    }
}

} // verus!
