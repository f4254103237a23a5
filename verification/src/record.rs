//! The five bytes in front of every TLS record.

use vstd::prelude::*;
use crate::error::GatewayError;
use crate::error::Failure;

verus! {

/// The length of a TLS record header.
pub const TLS_RECORD_HEADER_LENGTH: usize = 5;

/// The largest handshake body that the holohost gateway looks at.
pub const TLS_HANDSHAKE_MAX_LENGTH: usize = 2048;

/// The content type of a handshake record.
pub const CONTENT_TYPE_HANDSHAKE: u8 = 22;

/// A decoded record header.
#[derive(Clone, Copy, Debug, PartialEq, Eq, Structural)]
pub struct RecordHeader {
    pub content_type: u8,
    pub version: u16,
    pub length: u16,
}

/// The 16-bit number that two bytes spell, most significant byte first.
pub open spec fn be16(hi: u8, lo: u8) -> u16 {
    (hi as int * 256 + lo as int) as u16
}

/// The header that the first five bytes of `bytes` spell.
pub open spec fn header_of(bytes: Seq<u8>) -> RecordHeader
    recommends
        bytes.len() >= 5,
{
    RecordHeader {
        content_type: bytes[0],
        version: be16(bytes[1], bytes[2]),
        length: be16(bytes[3], bytes[4]),
    }
}

/// What a check of a peeked header against the ceiling `max_body` gives:
/// too few bytes first, then the content type, then the declared length.
pub open spec fn header_verdict(bytes: Seq<u8>, max_body: usize) -> Result<RecordHeader, Failure> {
    if bytes.len() < 5 {
        Err(Failure::ShortPeek { got: bytes.len() as usize, wanted: 5 })
    } else if header_of(bytes).content_type != CONTENT_TYPE_HANDSHAKE {
        Err(Failure::NotHandshake)
    } else if header_of(bytes).length as int > max_body as int {
        Err(Failure::HandshakeTooLarge { size: header_of(bytes).length as usize, max: max_body })
    } else {
        Ok(header_of(bytes))
    }
}

/// Whether a result of the library equals a result over the model.
pub open spec fn header_result_is(
    r: Result<RecordHeader, GatewayError>,
    m: Result<RecordHeader, Failure>,
) -> bool {
    match r {
        Ok(h) => m == Ok::<RecordHeader, Failure>(h),
        Err(e) => m == Err::<RecordHeader, Failure>(e@),
    }
}

/// Reads two bytes as a big-endian number.
pub fn read_be16(hi: u8, lo: u8) -> (n: u16)
    ensures
        n == be16(hi, lo),
{
    let high: u16 = hi as u16;
    let low: u16 = lo as u16;
    high * 256 + low
}

/// Decodes the record header at the front of `buf` and checks it: the record
/// must be a handshake record whose declared body is at most `max_body` bytes.
/// Nothing behind the fifth byte is looked at.
pub fn parse_record_header(buf: &[u8], max_body: usize) -> (r: Result<RecordHeader, GatewayError>)
    ensures
        header_result_is(r, header_verdict(buf@, max_body)),
{
    if buf.len() < TLS_RECORD_HEADER_LENGTH {
        return Err(GatewayError::ShortPeek { got: buf.len(), wanted: TLS_RECORD_HEADER_LENGTH });
    }
    let header = RecordHeader {
        content_type: buf[0],
        version: read_be16(buf[1], buf[2]),
        length: read_be16(buf[3], buf[4]),
    };
    if header.content_type != CONTENT_TYPE_HANDSHAKE {
        return Err(GatewayError::NotHandshake);
    }
    let size: usize = header.length as usize;
    if size > max_body {
        return Err(GatewayError::HandshakeTooLarge { size, max: max_body });
    }
    Ok(header)
}

/// The computing half of a peek: `buf` is the buffer of `size` bytes that was
/// offered to the transport and `n` the number of bytes that it filled in.
pub open spec fn peek_verdict(buf: Seq<u8>, n: usize, size: usize) -> Result<Seq<u8>, Failure> {
    if n == size {
        Ok(buf)
    } else {
        Err(Failure::ShortPeek { got: n, wanted: size })
    }
}

/// Accepts a peek only if it filled the whole buffer, and then hands the
/// buffer back untouched.
pub fn check_peek(buf: Vec<u8>, n: usize, size: usize) -> (r: Result<Vec<u8>, GatewayError>)
    ensures
        match r {
            Ok(bytes) => peek_verdict(buf@, n, size) == Ok::<Seq<u8>, Failure>(bytes@),
            Err(e) => peek_verdict(buf@, n, size) == Err::<Seq<u8>, Failure>(e@),
        },
{
    if n == size {
        Ok(buf)
    } else {
        Err(GatewayError::ShortPeek { got: n, wanted: size })
    }
}

} // verus!
