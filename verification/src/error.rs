//! The two closed sets of failures, how they are built, and how they are
//! described.

use crate::failure::handshake_text;
use openssl::ssl::HandshakeError;
use std::fmt::Debug;
use std::string::FromUtf8Error;
use vstd::prelude::*;
use vstd::std_specs::convert::{FromSpec, FromSpecImpl};
use vstd::string::to_string_from_display_ensures;

verus! {

/// The negative status with which a server answered a command.
#[derive(Clone, Copy, Debug, PartialEq, Eq, Structural)]
pub enum ReplyKind {
    /// The server did not accept the command as such.
    Bad,
    /// The server understood the command and refused it.
    No,
}

/// A response that could not be interpreted.
#[derive(Debug)]
pub enum ParseError {
    /// The bytes received are not valid UTF-8.
    Encoding(FromUtf8Error),
    /// The lines do not form a status response (OK, NO or BAD).
    StatusLine(Vec<String>),
    /// The lines do not form a capability response.
    Capability(Vec<String>),
    /// The message is no authentication challenge.
    AuthenticationChallenge(String),
}

/// Why a client operation failed. `S` is the type of the stream under a TLS
/// handshake.
#[derive(Debug)]
#[verifier::reject_recursive_types(S)]
pub enum Error<S> {
    /// Reading from or writing to the connection failed.
    Transport(std::io::Error),
    /// The TLS handshake on a connection failed.
    SecureChannel(HandshakeError<S>),
    /// The server answered with a negative status. The lines are kept as
    /// they were received, in the order received.
    ServerRejected { kind: ReplyKind, lines: Vec<String> },
    /// The response could not be interpreted.
    Malformed(ParseError),
}

/// The lower-level failure that an [`Error`] wraps.
#[derive(Debug)]
#[verifier::reject_recursive_types(S)]
pub enum Cause<'a, S> {
    /// The read or write failure inside `Error::Transport`.
    Transport(&'a std::io::Error),
    /// The handshake failure inside `Error::SecureChannel`.
    SecureChannel(&'a HandshakeError<S>),
}

impl ReplyKind {
    /// The fixed text that describes a rejection of this kind.
    pub open spec fn description_text(self) -> Seq<char> {
        match self {
            ReplyKind::Bad => "Bad Response"@,
            ReplyKind::No => "No Response"@,
        }
    }

    /// The fixed text that describes a rejection of this kind.
    pub fn description(&self) -> (label: &'static str)
        ensures
            label@ == self.description_text(),
    {
        match self {
            ReplyKind::Bad => "Bad Response",
            ReplyKind::No => "No Response",
        }
    }
}

impl ParseError {
    /// The fixed text that describes this failure. It depends on the variant
    /// alone, never on the lines or the message carried.
    pub open spec fn description_text(self) -> Seq<char> {
        match self {
            ParseError::Encoding(_) => "Unable to decode the response as UTF-8."@,
            ParseError::StatusLine(_) => "Unable to parse status response"@,
            ParseError::Capability(_) => "Unable to parse capability response"@,
            ParseError::AuthenticationChallenge(_) => "Unable to parse authentication response"@,
        }
    }

    /// The fixed text that describes this failure.
    pub fn description(&self) -> (label: &'static str)
        ensures
            label@ == self.description_text(),
    {
        match self {
            ParseError::Encoding(_) => "Unable to decode the response as UTF-8.",
            ParseError::StatusLine(_) => "Unable to parse status response",
            ParseError::Capability(_) => "Unable to parse capability response",
            ParseError::AuthenticationChallenge(_) => "Unable to parse authentication response",
        }
    }

    /// The text shown for this failure: its fixed description.
    pub fn describe(&self) -> (text: String)
        ensures
            text@ == self.description_text(),
    {
        self.description().to_owned()
    }

    /// A parse error is an outcome of the protocol and reports no underlying
    /// cause. The decoding failure of `Encoding` stays reachable through the
    /// variant itself.
    pub fn cause(&self) -> (cause: Option<&FromUtf8Error>)
        ensures
            cause is None,
    {
        None
    }
}

/// Classifies a read or write failure of the transport.
pub fn classify_io<S>(cause: std::io::Error) -> (error: Error<S>)
    ensures
        error == Error::<S>::Transport(cause),
        error.wrapped() == Some(Cause::<S>::Transport(&cause)),
{
    Error::Transport(cause)
}

/// Classifies a TLS handshake failure.
pub fn classify_tls<S>(cause: HandshakeError<S>) -> (error: Error<S>)
    ensures
        error == Error::<S>::SecureChannel(cause),
        error.wrapped() == Some(Cause::<S>::SecureChannel(&cause)),
{
    Error::SecureChannel(cause)
}

/// Classifies a negative reply of the server. The lines are kept as given:
/// none is dropped, changed or moved.
pub fn classify_server_reply<S>(kind: ReplyKind, lines: Vec<String>) -> (error: Error<S>)
    ensures
        error == (Error::<S>::ServerRejected { kind, lines }),
        error.fixed_text() == Some(kind.description_text()),
        error.wrapped() is None,
{
    Error::ServerRejected { kind, lines }
}

/// Classifies a response that could not be interpreted.
pub fn classify_parse<S>(cause: ParseError) -> (error: Error<S>)
    ensures
        error == Error::<S>::Malformed(cause),
        error.fixed_text() == Some(cause.description_text()),
        error.wrapped() is None,
{
    Error::Malformed(cause)
}

/// Lifts a decoding failure of the byte level to the error of the operation.
pub fn classify_decoding<S>(cause: FromUtf8Error) -> (error: Error<S>)
    ensures
        error == Error::<S>::Malformed(ParseError::Encoding(cause)),
        error.fixed_text() == Some("Unable to decode the response as UTF-8."@),
        error.wrapped() is None,
{
    classify_parse(ParseError::Encoding(cause))
}

impl<S> Error<S> {
    /// The fixed text of this error, where it has one. The two variants that
    /// wrap a foreign failure have none: their text is the failure's own.
    pub open spec fn fixed_text(self) -> Option<Seq<char>> {
        match self {
            Error::Transport(_) => None,
            Error::SecureChannel(_) => None,
            Error::ServerRejected { kind, .. } => Some(kind.description_text()),
            Error::Malformed(cause) => Some(cause.description_text()),
        }
    }

    /// The description of this error where the failure that it wraps, if it
    /// wraps one, has the text `failure_text`: that text as it stands for
    /// `Transport` and `SecureChannel`, the fixed text otherwise.
    pub open spec fn text_given(self, failure_text: Seq<char>) -> Seq<char> {
        match self.fixed_text() {
            Some(fixed) => fixed,
            None => failure_text,
        }
    }

    /// The foreign failure that this error wraps, if it wraps one.
    pub open spec fn wrapped(self) -> Option<Cause<'static, S>> {
        match self {
            Error::Transport(cause) => Some(Cause::Transport(&cause)),
            Error::SecureChannel(cause) => Some(Cause::SecureChannel(&cause)),
            Error::ServerRejected { .. } => None,
            Error::Malformed(_) => None,
        }
    }

    /// The fixed text of this error, or `None` for the two variants whose
    /// text is that of the failure they wrap.
    pub fn fixed_description(&self) -> (label: Option<&'static str>)
        ensures
            label is Some <==> self.fixed_text() is Some,
            label matches Some(l) ==> Some(l@) == self.fixed_text(),
    {
        match self {
            Error::Transport(_) => None,
            Error::SecureChannel(_) => None,
            Error::ServerRejected { kind, .. } => Some(kind.description()),
            Error::Malformed(cause) => Some(cause.description()),
        }
    }

    /// The description of this error, given the text of the failure that it
    /// wraps. `Transport` and `SecureChannel` hand that text on unchanged;
    /// the other variants have their fixed text, whatever `failure_text` is.
    pub fn description_given(&self, failure_text: String) -> (text: String)
        ensures
            text@ == self.text_given(failure_text@),
            self.fixed_text() is None ==> text == failure_text,
    {
        match self.fixed_description() {
            Some(label) => label.to_owned(),
            None => failure_text,
        }
    }

    /// The wrapped transport or handshake failure itself. A rejection by the
    /// server and a response that could not be interpreted are outcomes of
    /// the protocol and have no cause.
    pub fn cause(&self) -> (cause: Option<Cause<'_, S>>)
        ensures
            cause == self.wrapped(),
    {
        match self {
            Error::Transport(cause) => Some(Cause::Transport(cause)),
            Error::SecureChannel(cause) => Some(Cause::SecureChannel(cause)),
            Error::ServerRejected { .. } => None,
            Error::Malformed(_) => None,
        }
    }
}

impl<S: Debug> Error<S> {
    /// Whether `text` describes this error. For the two variants that wrap a
    /// foreign failure it is that failure's own text, as its `Display` gives
    /// it, and for a handshake failure that is never empty. For every other
    /// variant it is the fixed text.
    pub open spec fn described_by(self, text: String) -> bool {
        match self {
            Error::Transport(cause) => to_string_from_display_ensures::<std::io::Error>(
                &cause,
                text,
            ),
            Error::SecureChannel(cause) => {
                &&& to_string_from_display_ensures::<HandshakeError<S>>(&cause, text)
                &&& text@.len() > 0
            },
            Error::ServerRejected { .. } => Some(text@) == self.fixed_text(),
            Error::Malformed(_) => Some(text@) == self.fixed_text(),
        }
    }

    /// The description of this error: the wrapped failure's own text for
    /// `Transport` and `SecureChannel`, the fixed text otherwise.
    pub fn description(&self) -> (text: String)
        ensures
            self.described_by(text),
    {
        match self {
            Error::Transport(cause) => self.description_given(cause.to_string()),
            Error::SecureChannel(cause) => self.description_given(handshake_text(cause)),
            Error::ServerRejected { .. } => self.description_given(String::new()),
            Error::Malformed(_) => self.description_given(String::new()),
        }
    }

    /// The text shown for this error, which is its description.
    pub fn describe(&self) -> (text: String)
        ensures
            self.described_by(text),
    {
        self.description()
    }
}

impl<S> From<std::io::Error> for Error<S> {
    fn from(cause: std::io::Error) -> (error: Self) {
        classify_io(cause)
    }
}

impl<S> FromSpecImpl<std::io::Error> for Error<S> {
    open spec fn obeys_from_spec() -> bool {
        true
    }

    open spec fn from_spec(cause: std::io::Error) -> Self {
        Error::Transport(cause)
    }
}

impl<S> From<HandshakeError<S>> for Error<S> {
    fn from(cause: HandshakeError<S>) -> (error: Self) {
        classify_tls(cause)
    }
}

impl<S> FromSpecImpl<HandshakeError<S>> for Error<S> {
    open spec fn obeys_from_spec() -> bool {
        true
    }

    open spec fn from_spec(cause: HandshakeError<S>) -> Self {
        Error::SecureChannel(cause)
    }
}

impl<S> From<FromUtf8Error> for Error<S> {
    fn from(cause: FromUtf8Error) -> (error: Self) {
        classify_decoding(cause)
    }
}

impl<S> FromSpecImpl<FromUtf8Error> for Error<S> {
    open spec fn obeys_from_spec() -> bool {
        true
    }

    open spec fn from_spec(cause: FromUtf8Error) -> Self {
        Error::Malformed(ParseError::Encoding(cause))
    }
}

/// A rejection by the server is described by the text of its kind, whatever
/// lines it carries, also none: "Bad Response" for `Bad`, "No Response" for
/// `No`.
pub proof fn lemma_rejection_text<S: Debug>(kind: ReplyKind, lines: Vec<String>, text: String)
    requires
        (Error::<S>::ServerRejected { kind, lines }).described_by(text),
    ensures
        kind == ReplyKind::Bad ==> text@ == "Bad Response"@,
        kind == ReplyKind::No ==> text@ == "No Response"@,
{
}

/// A decoding failure that was lifted to the error of the operation is
/// described as a response that is not UTF-8, whatever the failure holds.
pub proof fn lemma_decoding_text<S: Debug>(cause: FromUtf8Error, text: String)
    requires
        <Error<S> as FromSpec<FromUtf8Error>>::from_spec(cause).described_by(text),
    ensures
        <Error<S> as FromSpec<FromUtf8Error>>::from_spec(cause) == Error::<S>::Malformed(
            ParseError::Encoding(cause),
        ),
        text@ == "Unable to decode the response as UTF-8."@,
{
}

/// Whether `text` is one non-empty line: it holds at least one character and
/// neither a line feed nor a carriage return.
pub open spec fn is_single_line(text: Seq<char>) -> bool {
    &&& text.len() > 0
    &&& forall|i: int| 0 <= i < text.len() ==> text[i] != '\n' && text[i] != '\r'
}

/// The fixed description of a rejection is one non-empty line.
pub proof fn lemma_reply_text_single_line(kind: ReplyKind)
    ensures
        is_single_line(kind.description_text()),
{
    reveal_strlit("Bad Response");
    reveal_strlit("No Response");
}

/// The fixed description of a parse error is one non-empty line.
pub proof fn lemma_parse_text_single_line(error: ParseError)
    ensures
        is_single_line(error.description_text()),
{
    reveal_strlit("Unable to decode the response as UTF-8.");
    reveal_strlit("Unable to parse status response");
    reveal_strlit("Unable to parse capability response");
    reveal_strlit("Unable to parse authentication response");
}

/// Where an error has a fixed text, its description is that text, and it is
/// one non-empty line.
pub proof fn lemma_fixed_text_single_line<S: Debug>(error: Error<S>, text: String)
    requires
        error.described_by(text),
        error.fixed_text() is Some,
    ensures
        Some(text@) == error.fixed_text(),
        is_single_line(text@),
{
    match error {
        Error::ServerRejected { kind, .. } => lemma_reply_text_single_line(kind),
        Error::Malformed(cause) => lemma_parse_text_single_line(cause),
        _ => {},
    }
}

/// The description of an error is never empty, unless the error wraps a
/// transport failure whose own text is empty.
pub proof fn lemma_text_nonempty<S: Debug>(error: Error<S>, text: String)
    requires
        error.described_by(text),
        error is Transport ==> text@.len() > 0,
    ensures
        text@.len() > 0,
{
    if error.fixed_text() is Some {
        lemma_fixed_text_single_line(error, text);
    }
}

/// The description of an error that wraps a failure is that failure's text
/// as it stands, so failures with different texts are described differently.
/// Every other error is described by its fixed text, whatever text is given.
pub proof fn lemma_description_follows_failure<S>(
    error: Error<S>,
    failure_text: Seq<char>,
    other_text: Seq<char>,
)
    ensures
        error.wrapped() is Some ==> error.text_given(failure_text) == failure_text,
        error.wrapped() is Some && failure_text != other_text ==> error.text_given(failure_text)
            != error.text_given(other_text),
        error.wrapped() is None ==> Some(error.text_given(failure_text)) == error.fixed_text(),
        error.wrapped() is None ==> error.text_given(failure_text) == error.text_given(other_text),
{
}

/// An error has a cause exactly when it is `Transport` or `SecureChannel`,
/// and exactly then it has no fixed text: its description is the cause's.
pub proof fn lemma_cause_or_fixed_text<S>(error: Error<S>)
    ensures
        error.wrapped() is Some <==> error is Transport || error is SecureChannel,
        error.wrapped() is None <==> error is ServerRejected || error is Malformed,
        error.wrapped() is Some <==> error.fixed_text() is None,
{
}

} // verus!
