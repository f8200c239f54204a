//! One request/response exchange over TCP, as the sequence of its steps.
//!
//! The exchange resolves the address, connects, writes the message as JSON
//! text without any framing, and takes one bounded read as the response. The
//! socket work is the caller's: [`send_tcp_message`] says which step comes
//! next, and is told how the last one ended.

use vstd::prelude::*;
use vstd::slice::slice_subrange;
use vstd::string::*;
use vstd::utf8::{decode_utf8, encode_utf8, valid_utf8};
use vstd::utf8::{encode_utf8_decode_utf8, encode_utf8_valid_utf8};
use crate::error::{Failure, ErrorKind};

verus! {

/// The most bytes that the one read of the response takes.
pub const READ_BUFFER_SIZE: usize = 1024;

/// A message for a peer: where to send it and what to send.
#[derive(Debug)]
pub struct TcpRequest {
    /// The peer's host, as the text of an IP address.
    pub address: String,
    /// The peer's port.
    pub port: u16,
    /// The payload, sent as JSON text.
    pub message: serde_json::Value,
}

/// The step of an exchange whose outcome is awaited.
#[derive(Clone, Copy, Debug, PartialEq, Eq, Structural)]
pub enum Stage {
    /// The address is being resolved.
    Resolving,
    /// The connection is being opened.
    Connecting,
    /// The message is being written.
    Writing,
    /// The response is being read.
    Reading,
}

/// What the caller does for a step.
#[derive(Debug, PartialEq, Eq)]
pub enum Action {
    /// Parse this text as a socket address.
    Resolve(String),
    /// Open a connection to the address that was resolved.
    Connect,
    /// Write all of these bytes to the connection.
    Write(Vec<u8>),
    /// Read once from the connection, at most this many bytes.
    Read(usize),
}

/// How the exchange goes on.
#[derive(Debug, PartialEq, Eq)]
pub enum Step {
    /// Carry out the action, then report its outcome for this stage.
    Next(Stage, Action),
    /// The exchange is over, with the response or the failure.
    Finish(Result<String, Failure>),
}

/// How far an exchange has come.
#[derive(Debug, PartialEq, Eq)]
pub enum Progress {
    /// Nothing was done yet.
    Start,
    /// The step of this stage ended: with the bytes it produced (those read,
    /// for `Reading`; for the other stages they are not looked at), or with
    /// the text of its failure.
    After(Stage, Result<Vec<u8>, String>),
}

/// The decimal digits of `n`, without sign or leading zeros.
pub open spec fn decimal(n: nat) -> Seq<char>
    decreases n,
{
    let digit = seq!['0', '1', '2', '3', '4', '5', '6', '7', '8', '9'][(n % 10) as int];
    if n < 10 {
        seq![digit]
    } else {
        decimal(n / 10).push(digit)
    }
}

/// The text that is parsed as the peer's socket address: host, a colon, and
/// the port in decimal.
pub open spec fn target_text(address: Seq<char>, port: u16) -> Seq<char> {
    address + seq![':'] + decimal(port as nat)
}

/// The JSON text that `serde_json::to_string` gives for a value, where it
/// gives one.
pub uninterp spec fn json_text(message: serde_json::Value) -> Seq<char>;

/// The text that `String::from_utf8_lossy` gives for bytes that are not
/// valid UTF-8.
pub uninterp spec fn lossy_text(bytes: Seq<u8>) -> Seq<char>;

/// The text of a response: the bytes decoded as UTF-8 where they are valid,
/// and otherwise with each invalid sequence replaced.
pub open spec fn response_text(bytes: Seq<u8>) -> Seq<char> {
    if valid_utf8(bytes) {
        decode_utf8(bytes)
    } else {
        lossy_text(bytes)
    }
}

/// The part of a reply that the one read takes: all of it, or as much as the
/// buffer holds.
pub open spec fn first_chunk(reply: Seq<u8>) -> Seq<u8> {
    if reply.len() <= READ_BUFFER_SIZE {
        reply
    } else {
        reply.take(READ_BUFFER_SIZE as int)
    }
}

/// A failure of the given kind whose message is `prefix` followed by
/// `detail`.
pub open spec fn is_failure(error: Failure, kind: ErrorKind, prefix: Seq<char>, detail: Seq<char>)
    -> bool {
    error.kind == kind && error.message@ == prefix + detail
}

/// A peer that echoes replies with the bytes it received. The response is
/// then the text that was sent, where its bytes fit the read buffer; where
/// they do not, it is the text of as many of them as the buffer holds.
pub proof fn lemma_echo_returns_what_was_sent(text: Seq<char>)
    ensures
        encode_utf8(text).len() <= READ_BUFFER_SIZE ==> response_text(
            first_chunk(encode_utf8(text)),
        ) == text,
        encode_utf8(text).len() > READ_BUFFER_SIZE ==> response_text(
            first_chunk(encode_utf8(text)),
        ) == response_text(encode_utf8(text).take(READ_BUFFER_SIZE as int)),
{
    encode_utf8_valid_utf8(text);
    encode_utf8_decode_utf8(text);
}

/// `serde_json::Value`, a JSON value of any shape.
#[verifier::external_type_specification]
#[verifier::external_body]
pub struct ExValue(serde_json::Value);

/// `serde_json::Error`, the failure of a serialization.
#[verifier::external_type_specification]
#[verifier::external_body]
pub struct ExJsonError(serde_json::Error);

/// `format!("{}:{}", address, port)`: the host, a colon, and the port as
/// `Display` prints an unsigned integer, in decimal without padding.
#[verifier::external_body]
fn socket_target(address: &String, port: u16) -> (target: String)
    ensures
        target@ == target_text(address@, port),
{
    format!("{}:{}", address, port)
}

/// `serde_json::to_string` on a `Value`. The text depends on the value alone;
/// that the call succeeds is not claimed.
#[verifier::external_body]
fn serialize(message: &serde_json::Value) -> (r: Result<String, serde_json::Error>)
    ensures
        r matches Ok(text) ==> text@ == json_text(*message),
{
    serde_json::to_string(message)
}

/// `to_string` on a `serde_json::Error`: the text that its `Display` prints.
#[verifier::external_body]
fn json_error_text(error: &serde_json::Error) -> String {
    error.to_string()
}

/// `String::from_utf8_lossy`: valid UTF-8 is decoded as it stands; in other
/// bytes each invalid sequence is replaced by U+FFFD.
#[verifier::external_body]
fn decode_lossy(bytes: &[u8]) -> (text: String)
    ensures
        valid_utf8(bytes@) ==> text@ == decode_utf8(bytes@),
        !valid_utf8(bytes@) ==> text@ == lossy_text(bytes@),
{
    String::from_utf8_lossy(bytes).into_owned()
}

/// A failure of `kind` with `prefix` followed by `detail` as its message.
fn failure(kind: ErrorKind, prefix: &str, detail: &String) -> (error: Failure)
    ensures
        is_failure(error, kind, prefix@, detail@),
{
    Failure { kind, message: String::from_str(prefix).concat(detail.as_str()) }
}

/// The step after the connection was opened, given how the serialization of
/// the message ended: the text is written as its UTF-8 bytes, and a failure
/// ends the exchange with `SerializationError`.
pub fn after_connect(serialized: Result<String, String>) -> (step: Step)
    ensures
        match serialized {
            Ok(text) => step matches Step::Next(Stage::Writing, Action::Write(payload))
                && payload@ == encode_utf8(text@),
            Err(detail) => step matches Step::Finish(Err(error)) && is_failure(
                error,
                ErrorKind::SerializationError,
                "Failed to serialize message: "@,
                detail@,
            ),
        },
{
    match serialized {
        Ok(text) => Step::Next(Stage::Writing, Action::Write(text.as_str().as_bytes_vec())),
        Err(detail) => Step::Finish(
            Err(failure(ErrorKind::SerializationError, "Failed to serialize message: ", &detail)),
        ),
    }
}

/// The response for the bytes that the one read returned: the text of as
/// many of them as the buffer holds.
pub fn response(received: &Vec<u8>) -> (text: String)
    ensures
        text@ == response_text(first_chunk(received@)),
{
    if received.len() <= READ_BUFFER_SIZE {
        decode_lossy(received.as_slice())
    } else {
        decode_lossy(slice_subrange(received.as_slice(), 0, READ_BUFFER_SIZE))
    }
}

/// The next step of the exchange for `request`, given how far it has come.
///
/// The steps follow each other in one order: resolve the address, connect,
/// write the message, read once. A step that fails ends the exchange with the
/// failure of its stage; the read that succeeds ends it with the response.
/// The message is serialized when the connection stands, so an address that
/// cannot be resolved or a peer that cannot be reached is reported first.
pub fn send_tcp_message(request: &TcpRequest, progress: Progress) -> (step: Step)
    ensures
        match progress {
            Progress::Start => step matches Step::Next(Stage::Resolving, Action::Resolve(target))
                && target@ == target_text(request.address@, request.port),
            Progress::After(Stage::Resolving, Ok(_)) => step == Step::Next(
                Stage::Connecting,
                Action::Connect,
            ),
            Progress::After(Stage::Resolving, Err(detail)) => step matches Step::Finish(Err(error))
                && is_failure(
                error,
                ErrorKind::InvalidAddress,
                "Invalid address or port: "@,
                detail@,
            ),
            Progress::After(Stage::Connecting, Ok(_)) => {
                ||| step matches Step::Next(Stage::Writing, Action::Write(payload)) && payload@
                    == encode_utf8(json_text(request.message))
                ||| step matches Step::Finish(Err(error)) && exists|detail: Seq<char>|
                    is_failure(
                        error,
                        ErrorKind::SerializationError,
                        "Failed to serialize message: "@,
                        detail,
                    )
            },
            Progress::After(Stage::Connecting, Err(detail)) => step matches Step::Finish(
                Err(error),
            ) && is_failure(error, ErrorKind::ConnectionError, "Failed to connect: "@, detail@),
            Progress::After(Stage::Writing, Ok(_)) => step == Step::Next(
                Stage::Reading,
                Action::Read(READ_BUFFER_SIZE),
            ),
            Progress::After(Stage::Writing, Err(detail)) => step matches Step::Finish(Err(error))
                && is_failure(error, ErrorKind::IoError, "Failed to send message: "@, detail@),
            Progress::After(Stage::Reading, Ok(received)) => step matches Step::Finish(Ok(text))
                && text@ == response_text(first_chunk(received@)),
            Progress::After(Stage::Reading, Err(detail)) => step matches Step::Finish(Err(error))
                && is_failure(error, ErrorKind::ReadError, "Failed to read response: "@, detail@),
        },
{
    match progress {
        Progress::Start => Step::Next(
            Stage::Resolving,
            Action::Resolve(socket_target(&request.address, request.port)),
        ),
        Progress::After(stage, Err(detail)) => {
            let error = match stage {
                Stage::Resolving => failure(
                    ErrorKind::InvalidAddress,
                    "Invalid address or port: ",
                    &detail,
                ),
                Stage::Connecting => failure(
                    ErrorKind::ConnectionError,
                    "Failed to connect: ",
                    &detail,
                ),
                Stage::Writing => failure(ErrorKind::IoError, "Failed to send message: ", &detail),
                Stage::Reading => failure(
                    ErrorKind::ReadError,
                    "Failed to read response: ",
                    &detail,
                ),
            };
            Step::Finish(Err(error))
        },
        Progress::After(Stage::Resolving, Ok(_)) => Step::Next(Stage::Connecting, Action::Connect),
        Progress::After(Stage::Connecting, Ok(_)) => {
            let serialized = match serialize(&request.message) {
                Ok(text) => Ok(text),
                Err(error) => Err(json_error_text(&error)),
            };
            after_connect(serialized)
        },
        Progress::After(Stage::Writing, Ok(_)) => Step::Next(
            Stage::Reading,
            Action::Read(READ_BUFFER_SIZE),
        ),
        Progress::After(Stage::Reading, Ok(received)) => Step::Finish(Ok(response(&received))),
    }
}

} // verus!
