//! Error taxonomy of an IMAP client that talks over plain or TLS-wrapped
//! connections.
//!
//! Every client operation fails with one [`error::Error`], whichever layer
//! detected the failure: the transport, the TLS handshake, the server's own
//! negative reply, or the interpretation of a response.

pub mod error;
pub mod failure;
