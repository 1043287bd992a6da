//! Failures of a bridge call and the decoding of text responses.

use vstd::prelude::*;
use vstd::utf8::{decode_utf8, valid_utf8};

verus! {

/// What went wrong in a call to the backend.
#[derive(Clone, Copy, Debug, PartialEq, Eq, Structural)]
pub enum ErrorKind {
    /// The socket is missing or the connection was refused.
    Unreachable,
    /// The exchange started but failed before a full response arrived.
    Io,
    /// The response was not valid UTF-8 where text was expected.
    Encoding,
    /// The request itself could not be put together.
    RequestBuild,
}

/// A failed call: a kind to branch on and a message for people.
#[derive(Clone, Debug)]
pub struct BridgeError {
    pub kind: ErrorKind,
    pub message: String,
}

/// The word that opens the description of each kind.
pub open spec fn kind_label(kind: ErrorKind) -> Seq<char> {
    match kind {
        ErrorKind::Unreachable => "backend unreachable"@,
        ErrorKind::Io => "exchange failed"@,
        ErrorKind::Encoding => "invalid encoding"@,
        ErrorKind::RequestBuild => "malformed request"@,
    }
}

impl ErrorKind {
    pub fn label(&self) -> (r: &'static str)
        ensures
            r@ == kind_label(*self),
    {
        match self {
            ErrorKind::Unreachable => "backend unreachable",
            ErrorKind::Io => "exchange failed",
            ErrorKind::Encoding => "invalid encoding",
            ErrorKind::RequestBuild => "malformed request",
        }
    }
}

impl BridgeError {
    /// The single line of text that a caller of the bridge is shown.
    pub fn describe(&self) -> (r: String)
        ensures
            r@ == kind_label(self.kind) + ": "@ + self.message@,
    {
        let mut r = String::new();
        r.append(self.kind.label());
        r.append(": ");
        r.append(self.message.as_str());
        r
    }
}

/// The error for a transport failure: before the connection stood it is
/// `Unreachable`, after that `Io`.
pub fn transport_error(connected: bool, message: String) -> (r: BridgeError)
    ensures
        r.kind == (if connected { ErrorKind::Io } else { ErrorKind::Unreachable }),
        r.message@ == message@,
{
    let kind = if connected { ErrorKind::Io } else { ErrorKind::Unreachable };
    BridgeError { kind, message }
}

/// The error for a request that could not be built.
pub fn request_build_error(message: String) -> (r: BridgeError)
    ensures
        r.kind == ErrorKind::RequestBuild,
        r.message@ == message@,
{
    BridgeError { kind: ErrorKind::RequestBuild, message }
}

/// Relies on `String::from_utf8`: it succeeds exactly on valid UTF-8 and then
/// holds the characters that the bytes encode.
#[verifier::external_body]
fn utf8_string(bytes: Vec<u8>) -> (r: Option<String>)
    ensures
        r is Some <==> valid_utf8(bytes@),
        r matches Some(s) ==> s@ == decode_utf8(bytes@),
{
    String::from_utf8(bytes).ok()
}

/// Decodes a response body that the backend sends as text.
pub fn decode_text(body: Vec<u8>) -> (r: Result<String, BridgeError>)
    ensures
        r is Ok <==> valid_utf8(body@),
        r matches Ok(s) ==> s@ == decode_utf8(body@),
        r matches Err(e) ==> e.kind == ErrorKind::Encoding,
{
    match utf8_string(body) {
        Some(s) => Ok(s),
        None => Err(
            BridgeError {
                kind: ErrorKind::Encoding,
                message: String::from_str("response body is not valid UTF-8"),
            },
        ),
    }
}

} // verus!
