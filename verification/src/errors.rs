use vstd::prelude::*;

verus! {

/// The error taxonomy of the protocol client.
///
/// Every fault of an interaction is fatal to that interaction and is reported
/// as one of these variants. The transport-level variants (`IoError`,
/// `EncodingError`, `SerdeError`, `AsyncWebSocketError`) carry the underlying
/// error rendered as text; the protocol-level variants are produced by the
/// driver and the codec.
#[derive(Debug, Clone, PartialEq)]
pub enum ProtocolError {
    /// The underlying byte channel failed.
    IoError(String),
    /// A message body was not valid UTF-8.
    EncodingError(String),
    /// A structured encode or decode failed outside the shapes covered below.
    SerdeError(String),
    /// The framing layer failed.
    AsyncWebSocketError(String),
    /// A well-formed message had a disallowed shape: a non-text frame, an
    /// unknown event kind, or an item payload that is not decodable.
    UnexpectedFormat,
    /// An event kind arrived in a state that forbids it; carries the kind's
    /// canonical string.
    UnexpectedKind(String),
    /// An item event arrived without a payload.
    NoDataProvided,
    /// The server rejected the requested action, with its reason.
    ActionRejected(String),
    /// The server reported a failure while serving the action, with its reason.
    ActionFailed(String),
    /// The fold computation failed, or the connection was severed while a fold
    /// was still outstanding.
    Interrupted,
    /// The caller attempted to drive an interaction that already completed.
    InteractionFinished,
    /// Escape hatch for faults outside the taxonomy.
    Other(String),
}

} // verus!
