//! The foreign failures that an error value may wrap, and how the
//! secure-channel one renders.

use openssl::ssl::HandshakeError;
use std::fmt::Debug;
use vstd::prelude::*;
use vstd::string::to_string_from_display_ensures;

verus! {

/// `std::io::Error`: a read or write failure of the transport. Nothing of
/// its contents is visible to proofs.
#[verifier::external_type_specification]
#[verifier::external_body]
pub struct ExIoError(std::io::Error);

/// `std::string::FromUtf8Error`: bytes that are not valid UTF-8. Nothing of
/// its contents is visible to proofs.
#[verifier::external_type_specification]
#[verifier::external_body]
pub struct ExFromUtf8Error(std::string::FromUtf8Error);

/// `openssl::ssl::HandshakeError<S>`: a TLS handshake that did not complete
/// on a stream of type `S`. Nothing of its contents is visible to proofs.
#[verifier::external_type_specification]
#[verifier::external_body]
#[verifier::reject_recursive_types(S)]
pub struct ExHandshakeError<S>(HandshakeError<S>);

/// Renders an `openssl::ssl::HandshakeError<S>` through its `Display` impl.
///
/// Believed, not proved: the text is what `to_string` gives for the failure,
/// and it is never empty. Every arm of that `Display` impl begins by writing
/// a fixed phrase ("stream setup failed: ", "the handshake failed: " or "the
/// handshake was interrupted: ") before anything that depends on the failure.
#[verifier::external_body]
pub(crate) fn handshake_text<S: Debug>(failure: &HandshakeError<S>) -> (text: String)
    ensures
        to_string_from_display_ensures::<HandshakeError<S>>(failure, text),
        text@.len() > 0,
{
    failure.to_string()
}

} // verus!
