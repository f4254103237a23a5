use gateway::error::GatewayError;
use gateway::policy::Decision;
use gateway::policy::RoutingPolicy;
use gateway::policy::DESTINATION_PORT;
use gateway::session::route;
use gateway::session::step;
use gateway::session::Action;
use gateway::session::Event;
use gateway::session::Stage;
use gateway::text::as_str;
use gateway::text::decimal;
use gateway::text::digit;
use gateway::text::ends_with;

fn pair(n: usize) -> Vec<u8> {
    vec![(n >> 8) as u8, (n & 0xff) as u8]
}

fn hello_for(host: &str) -> Vec<u8> {
    let mut list = vec![0u8];
    list.extend(pair(host.len()));
    list.extend_from_slice(host.as_bytes());
    let mut extension = vec![0x00, 0x00];
    extension.extend(pair(list.len() + 2));
    extension.extend(pair(list.len()));
    extension.extend(list);
    let mut body = vec![0x03, 0x03];
    body.extend_from_slice(&[1u8; 32]);
    body.extend_from_slice(&[0x00, 0x00, 0x02, 0x13, 0x01, 0x01, 0x00]);
    body.extend(pair(extension.len()));
    body.extend(extension);
    let mut message = vec![0x01, 0x00];
    message.extend(pair(body.len()));
    message.extend(body);
    let mut record = vec![0x16, 0x03, 0x01];
    record.extend(pair(message.len()));
    record.extend(message);
    record
}

fn peeked(bytes: &[u8]) -> Event {
    Event::Peeked { buf: bytes.to_vec(), filled: bytes.len() }
}

fn until_sniffed(policy: &RoutingPolicy, record: &[u8]) -> (Stage, Action) {
    let (stage, action) = step(policy, Stage::Start, Event::Accepted);
    assert_eq!(stage, Stage::AwaitHeader);
    assert_eq!(action, Action::Peek { size: 5 });
    let (stage, action) = step(policy, stage, peeked(&record[..5]));
    assert_eq!(stage, Stage::AwaitHandshake { version: 0x0301, length: (record.len() - 5) as u16 });
    assert_eq!(action, Action::Peek { size: record.len() });
    step(policy, stage, peeked(record))
}

#[test]
fn holohost_policy() {
    let policy = RoutingPolicy::holohost();
    assert_eq!(policy.allowed_suffix, "holohost.net");
    assert_eq!(policy.port, 443);
    assert_eq!(policy.max_handshake, 2048);
    assert_eq!(DESTINATION_PORT, 443);
}

#[test]
fn suffix_match() {
    assert!(ends_with("app.holohost.net", "holohost.net"));
    assert!(ends_with("holohost.net", "holohost.net"));
    assert!(ends_with("anything", ""));
    assert!(!ends_with("host.net", "holohost.net"));
    assert!(!ends_with("holohost.net.evil.com", "holohost.net"));
    assert!(!ends_with("holohost.nez", "holohost.net"));
    assert!(!ends_with("", "x"));
    assert!(ends_with("grüße.holohost.net", "ße.holohost.net"));
}

#[test]
fn admits_by_suffix() {
    let policy = RoutingPolicy::holohost();
    assert!(policy.admits("app.holohost.net"));
    assert!(policy.admits("notholohost.net"));
    assert!(!policy.admits("evil.example.com"));
}

#[test]
fn decision_on_an_admitted_name() {
    let policy = RoutingPolicy::holohost();
    assert_eq!(
        policy.decide("app.holohost.net"),
        Decision::Admitted { host: String::from("app.holohost.net"), port: 443 }
    );
}

#[test]
fn decision_on_a_rejected_name() {
    let policy = RoutingPolicy::holohost();
    let decision = policy.decide("evil.example.com");
    assert_eq!(
        decision,
        Decision::Rejected {
            reason: GatewayError::Rejected { host: String::from("evil.example.com") }
        }
    );
    if let Decision::Rejected { reason } = decision {
        assert_eq!(reason.message(), "Rejected evil.example.com");
        assert!(reason.message().contains("evil.example.com"));
    }
}

#[test]
fn decision_is_repeatable() {
    let policy = RoutingPolicy::holohost();
    assert_eq!(policy.decide("app.holohost.net"), policy.decide("app.holohost.net"));
    assert_eq!(policy.decide("evil.example.com"), policy.decide("evil.example.com"));
}

#[test]
fn decision_under_another_policy() {
    let policy = RoutingPolicy {
        allowed_suffix: String::from(".example.org"),
        port: 8443,
        max_handshake: 512,
    };
    assert_eq!(
        policy.decide("a.example.org"),
        Decision::Admitted { host: String::from("a.example.org"), port: 8443 }
    );
    assert!(!policy.admits("app.holohost.net"));
}

#[test]
fn admitted_connection_runs_to_the_relay() {
    let policy = RoutingPolicy::holohost();
    let record = hello_for("app.holohost.net");
    let (stage, action) = until_sniffed(&policy, &record);
    assert_eq!(stage, Stage::Resolving { host: String::from("app.holohost.net") });
    assert_eq!(action, Action::Resolve { host: String::from("app.holohost.net"), port: 443 });
    let (stage, action) = step(&policy, stage, Event::Resolved);
    assert_eq!((&stage, &action), (&Stage::Connecting, &Action::Connect));
    let (stage, action) = step(&policy, stage, Event::Connected);
    assert_eq!((&stage, &action), (&Stage::Relaying, &Action::Relay));
    let (stage, action) = step(&policy, stage, Event::RelayFinished);
    assert_eq!((&stage, &action), (&Stage::Closed, &Action::Finish));
}

#[test]
fn rejected_connection_is_dropped() {
    let policy = RoutingPolicy::holohost();
    let record = hello_for("evil.example.com");
    let (stage, action) = until_sniffed(&policy, &record);
    assert_eq!(stage, Stage::Closed);
    let error = GatewayError::Rejected { host: String::from("evil.example.com") };
    assert!(error.message().contains("evil.example.com"));
    assert_eq!(action, Action::Fail { error });
    let (stage, action) = step(&policy, stage, Event::Resolved);
    assert_eq!((&stage, &action), (&Stage::Closed, &Action::Finish));
    let (stage, action) = step(&policy, stage, Event::Connected);
    assert_eq!((&stage, &action), (&Stage::Closed, &Action::Finish));
}

#[test]
fn two_connections_keep_apart() {
    let policy = RoutingPolicy::holohost();
    let first = hello_for("one.holohost.net");
    let second = hello_for("two.holohost.net");
    let (a, _) = step(&policy, Stage::Start, Event::Accepted);
    let (b, _) = step(&policy, Stage::Start, Event::Accepted);
    let (a, _) = step(&policy, a, peeked(&first[..5]));
    let (b, _) = step(&policy, b, peeked(&second[..5]));
    let (b, to_b) = step(&policy, b, peeked(&second));
    let (a, to_a) = step(&policy, a, peeked(&first));
    assert_eq!(to_a, Action::Resolve { host: String::from("one.holohost.net"), port: 443 });
    assert_eq!(to_b, Action::Resolve { host: String::from("two.holohost.net"), port: 443 });
    assert_eq!(a, Stage::Resolving { host: String::from("one.holohost.net") });
    assert_eq!(b, Stage::Resolving { host: String::from("two.holohost.net") });
}

#[test]
fn oversized_handshake_ends_the_connection() {
    let policy = RoutingPolicy::holohost();
    let (stage, _) = step(&policy, Stage::Start, Event::Accepted);
    let (stage, action) = step(&policy, stage, peeked(&[0x16, 0x03, 0x01, 0x40, 0x00]));
    assert_eq!(stage, Stage::Closed);
    assert_eq!(
        action,
        Action::Fail { error: GatewayError::HandshakeTooLarge { size: 16384, max: 2048 } }
    );
}

#[test]
fn alert_ends_the_connection() {
    let policy = RoutingPolicy::holohost();
    let (stage, _) = step(&policy, Stage::Start, Event::Accepted);
    let (stage, action) = step(&policy, stage, peeked(&[0x15, 0x03, 0x01, 0x00, 0x02]));
    assert_eq!(stage, Stage::Closed);
    assert_eq!(action, Action::Fail { error: GatewayError::NotHandshake });
}

#[test]
fn short_peek_ends_the_connection() {
    let policy = RoutingPolicy::holohost();
    let (stage, _) = step(&policy, Stage::Start, Event::Accepted);
    let event = Event::Peeked { buf: vec![0x16, 0x03, 0, 0, 0], filled: 2 };
    let (stage, action) = step(&policy, stage, event);
    assert_eq!(stage, Stage::Closed);
    assert_eq!(action, Action::Fail { error: GatewayError::ShortPeek { got: 2, wanted: 5 } });
}

#[test]
fn short_record_ends_the_connection() {
    let policy = RoutingPolicy::holohost();
    let stage = Stage::AwaitHandshake { version: 0x0301, length: 100 };
    let event = Event::Peeked { buf: vec![0; 105], filled: 60 };
    let (stage, action) = step(&policy, stage, event);
    assert_eq!(stage, Stage::Closed);
    assert_eq!(action, Action::Fail { error: GatewayError::ShortPeek { got: 60, wanted: 105 } });
}

#[test]
fn unresolved_name_ends_the_connection() {
    let policy = RoutingPolicy::holohost();
    let stage = Stage::Resolving { host: String::from("gone.holohost.net") };
    let (stage, action) = step(&policy, stage, Event::Unresolved);
    assert_eq!(stage, Stage::Closed);
    let error = GatewayError::ResolutionFailed { host: String::from("gone.holohost.net") };
    assert_eq!(error.message(), "Failed to resolve gone.holohost.net");
    assert_eq!(action, Action::Fail { error });
}

#[test]
fn transport_failure_ends_the_connection() {
    let policy = RoutingPolicy::holohost();
    let event = Event::TransportFailed { cause: String::from("connection reset") };
    let (stage, action) = step(&policy, Stage::Relaying, event);
    assert_eq!(stage, Stage::Closed);
    let error = GatewayError::Transport { cause: String::from("connection reset") };
    assert_eq!(error.message(), "connection reset");
    assert_eq!(action, Action::Fail { error });
}

#[test]
fn event_out_of_turn_ends_the_connection() {
    let policy = RoutingPolicy::holohost();
    let (stage, action) = step(&policy, Stage::Start, Event::Connected);
    assert_eq!(stage, Stage::Closed);
    assert_eq!(action, Action::Fail { error: GatewayError::UnexpectedEvent });
    let (stage, action) = step(&policy, Stage::Connecting, Event::Resolved);
    assert_eq!(stage, Stage::Closed);
    assert_eq!(action, Action::Fail { error: GatewayError::UnexpectedEvent });
}

#[test]
fn routes_a_sniffed_name() {
    let policy = RoutingPolicy::holohost();
    assert_eq!(
        route(&policy, Ok(String::from("x.holohost.net"))),
        (
            Stage::Resolving { host: String::from("x.holohost.net") },
            Action::Resolve { host: String::from("x.holohost.net"), port: 443 }
        )
    );
    assert_eq!(
        route(&policy, Ok(String::from("x.example.com"))),
        (
            Stage::Closed,
            Action::Fail { error: GatewayError::Rejected { host: String::from("x.example.com") } }
        )
    );
    assert_eq!(
        route(&policy, Err(GatewayError::MissingSni)),
        (Stage::Closed, Action::Fail { error: GatewayError::MissingSni })
    );
}

#[test]
fn messages() {
    assert_eq!(
        GatewayError::ShortPeek { got: 3, wanted: 5 }.message(),
        "Peek size mismatch: 3 != 5"
    );
    assert_eq!(GatewayError::NotHandshake.message(), "TLS message is not a handshake");
    assert_eq!(
        GatewayError::HandshakeTooLarge { size: 4096, max: 2048 }.message(),
        "TLS handshake size is 4096, expected 2048 max"
    );
    assert_eq!(GatewayError::MalformedHandshake.message(), "TLS handshake is malformed");
    assert_eq!(GatewayError::NotClientHello.message(), "TLS handshake is not Client Hello");
    assert_eq!(GatewayError::MissingSni.message(), "Missing SNI");
    assert_eq!(GatewayError::UnsupportedNameType.message(), "Unknown SNI payload type");
    assert_eq!(GatewayError::UnexpectedEvent.message(), "Unexpected event");
}

#[test]
fn decimal_numerals() {
    assert_eq!(decimal(0), "0");
    assert_eq!(decimal(9), "9");
    assert_eq!(decimal(10), "10");
    assert_eq!(decimal(2048), "2048");
    assert_eq!(decimal(65535), "65535");
    assert_eq!(decimal(usize::MAX), format!("{}", usize::MAX));
    assert_eq!(digit(7), "7");
}

#[test]
fn owned_copy_of_a_slice() {
    assert_eq!(as_str("holohost.net"), String::from("holohost.net"));
    assert_eq!(as_str(""), String::new());
}
