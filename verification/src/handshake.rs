//! From the body of a handshake record to the host name that the client asks
//! for. The decoding of the handshake message is rustls's; what is made of the
//! decoded message is decided here.

use vstd::prelude::*;
use vstd::slice::slice_subrange;
use rustls::internal::msgs::codec::Codec;
use rustls::internal::msgs::codec::Reader;
use rustls::internal::msgs::enums::ProtocolVersion;
use rustls::internal::msgs::handshake::HandshakeMessagePayload;
use rustls::internal::msgs::handshake::HandshakePayload;
use rustls::internal::msgs::handshake::ServerNamePayload;
use crate::text::as_str;
use crate::error::Failure;
use crate::error::GatewayError;
use crate::record::TLS_RECORD_HEADER_LENGTH;

verus! {

/// One entry of a server-name list.
#[derive(Clone, Debug, PartialEq, Eq)]
pub enum ServerNameEntry {
    /// An entry of the host-name type, with the name.
    HostName(String),
    /// An entry of any other type.
    Unknown,
}

/// What the gateway reads off a decoded handshake message.
#[derive(Clone, Debug, PartialEq, Eq)]
pub enum HandshakeOutline {
    /// The bytes do not decode as a handshake message.
    Undecodable,
    /// A handshake message other than a ClientHello.
    OtherMessage,
    /// A ClientHello, with the entries of its server-name extension in the
    /// order of the wire, or `None` where it has no such extension.
    ClientHello(Option<Vec<ServerNameEntry>>),
}

/// The mathematical value of a [`ServerNameEntry`].
pub enum NameModel {
    HostName(Seq<char>),
    Unknown,
}

/// The mathematical value of a [`HandshakeOutline`].
pub enum OutlineModel {
    Undecodable,
    OtherMessage,
    ClientHello(Option<Seq<NameModel>>),
}

impl View for ServerNameEntry {
    type V = NameModel;

    open spec fn view(&self) -> NameModel {
        match *self {
            ServerNameEntry::HostName(name) => NameModel::HostName(name@),
            ServerNameEntry::Unknown => NameModel::Unknown,
        }
    }
}

impl View for HandshakeOutline {
    type V = OutlineModel;

    open spec fn view(&self) -> OutlineModel {
        match *self {
            HandshakeOutline::Undecodable => OutlineModel::Undecodable,
            HandshakeOutline::OtherMessage => OutlineModel::OtherMessage,
            HandshakeOutline::ClientHello(None) => OutlineModel::ClientHello(None),
            HandshakeOutline::ClientHello(Some(names)) => OutlineModel::ClientHello(
                Some(Seq::new(names@.len(), |i: int| names@[i]@)),
            ),
        }
    }
}

/// The outline of the handshake message that rustls decodes from `body`, the
/// bytes behind a record header that announced protocol version `version`.
pub uninterp spec fn decoded_handshake(body: Seq<u8>, version: u16) -> OutlineModel;

/// Decodes `body` with rustls's `HandshakeMessagePayload::read_version`, under
/// the version that `ProtocolVersion::read` makes of `version`, and for a
/// ClientHello looks up the server names with
/// `ClientHelloPayload::get_sni_extension`. The contract claims only that the
/// outcome is a function of the two arguments, and names it
/// `decoded_handshake`: rustls keeps no state between calls, and a host name
/// comes back as its `DNSName` holds it, in lower case.
#[verifier::external_body]
fn decode_handshake(body: &[u8], version: u16) -> (outline: HandshakeOutline)
    ensures
        outline@ == decoded_handshake(body@, version),
{
    let decoded = ProtocolVersion::read(&mut Reader::init(&version.to_be_bytes()))
        .and_then(|v| HandshakeMessagePayload::read_version(&mut Reader::init(body), v));
    match decoded.map(|message| message.payload) {
        None => HandshakeOutline::Undecodable,
        Some(HandshakePayload::ClientHello(hello)) => HandshakeOutline::ClientHello(
            hello.get_sni_extension().map(|names| names.iter().map(|name| match &name.payload {
                ServerNamePayload::HostName(host) => ServerNameEntry::HostName(String::from(AsRef::<str>::as_ref(host))),
                ServerNamePayload::Unknown(_) => ServerNameEntry::Unknown,
            }).collect())),
        Some(_) => HandshakeOutline::OtherMessage,
    }
}

/// The host name that an outline yields, or why it yields none. Only the
/// first server name counts; a list without entries names no server.
pub open spec fn hostname_verdict(outline: OutlineModel) -> Result<Seq<char>, Failure> {
    match outline {
        OutlineModel::Undecodable => Err(Failure::MalformedHandshake),
        OutlineModel::OtherMessage => Err(Failure::NotClientHello),
        OutlineModel::ClientHello(None) => Err(Failure::MissingSni),
        OutlineModel::ClientHello(Some(names)) => if names.len() == 0 {
            Err(Failure::MissingSni)
        } else {
            match names[0] {
                NameModel::HostName(host) => Ok(host),
                NameModel::Unknown => Err(Failure::UnsupportedNameType),
            }
        },
    }
}

/// Whether a result of the library equals a result over the model.
pub open spec fn hostname_result_is(
    r: Result<String, GatewayError>,
    m: Result<Seq<char>, Failure>,
) -> bool {
    match r {
        Ok(host) => m == Ok::<Seq<char>, Failure>(host@),
        Err(e) => m == Err::<Seq<char>, Failure>(e@),
    }
}

/// Picks the requested host name out of a decoded handshake.
pub fn hostname_of(outline: &HandshakeOutline) -> (r: Result<String, GatewayError>)
    ensures
        hostname_result_is(r, hostname_verdict(outline@)),
{
    match outline {
        HandshakeOutline::Undecodable => Err(GatewayError::MalformedHandshake),
        HandshakeOutline::OtherMessage => Err(GatewayError::NotClientHello),
        HandshakeOutline::ClientHello(None) => Err(GatewayError::MissingSni),
        HandshakeOutline::ClientHello(Some(names)) => {
            if names.len() == 0 {
                Err(GatewayError::MissingSni)
            } else {
                match &names[0] {
                    ServerNameEntry::HostName(host) => Ok(as_str(host.as_str())),
                    ServerNameEntry::Unknown => Err(GatewayError::UnsupportedNameType),
                }
            }
        },
    }
}

/// What sniffing a peeked record gives: the record must hold its header, and
/// the rest is decoded as a handshake message.
pub open spec fn sniff_verdict(record: Seq<u8>, version: u16) -> Result<Seq<char>, Failure> {
    if record.len() < 5 {
        Err(Failure::ShortPeek { got: record.len() as usize, wanted: 5 })
    } else {
        hostname_verdict(decoded_handshake(record.subrange(5, record.len() as int), version))
    }
}

/// Finds the host name in a peeked handshake record: skips the record header,
/// has the rest decoded, and picks the first server name. `version` is the
/// protocol version that the record header announced.
pub fn sniff_hostname(record: &[u8], version: u16) -> (r: Result<String, GatewayError>)
    ensures
        hostname_result_is(r, sniff_verdict(record@, version)),
{
    if record.len() < TLS_RECORD_HEADER_LENGTH {
        return Err(GatewayError::ShortPeek { got: record.len(), wanted: TLS_RECORD_HEADER_LENGTH });
    }
    let body = slice_subrange(record, TLS_RECORD_HEADER_LENGTH, record.len());
    let outline = decode_handshake(body, version);
    hostname_of(&outline)
}

} // verus!
