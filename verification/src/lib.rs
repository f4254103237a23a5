//! The decision logic of a TLS-passthrough gateway: reading the record header
//! of a peeked handshake, finding the server name a client asks for, admitting
//! or rejecting that name, and sequencing one connection from its first peek
//! to the relay.

pub mod text;
pub mod error;
pub mod record;
pub mod handshake;
pub mod policy;
pub mod session;
pub mod laws;
