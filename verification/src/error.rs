//! The ways in which a dispatch or a decoding fails.

use vstd::prelude::*;

verus! {

/// A response, or a part of one, that does not have the expected shape.
#[derive(Debug, Clone, Copy, PartialEq, Eq, Structural)]
pub enum DecodeError {
    /// The text is not a JSON document.
    InvalidJson,
    /// The document is not an object whose `data` member has the expected kind.
    MissingData,
    /// An entry is not an object with a string under `status`.
    MissingStatus,
    /// The status of an entry is neither `ok` nor `error`.
    UnknownStatus,
    /// A ticket with the status `ok` has no string under `id`.
    MissingId,
    /// An entry with the status `error` has no string under `message`.
    MissingMessage,
    /// A string that names no variant of the enum asked for.
    UnknownName,
}

/// The failure of a call as a whole. A ticket or a receipt that reports an
/// error for one message is no failure of the call.
#[derive(Debug, Clone, Copy, PartialEq, Eq)]
pub enum ExpoNotificationError {
    /// The exchange with the server failed: no response came back (`None`),
    /// or one with a status outside 200..=299.
    Request { status: Option<u16> },
    /// The request body could not be serialized or compressed.
    Io,
    /// The response body does not have the expected shape.
    Decode(DecodeError),
    /// The server answered with another number of tickets than messages were sent.
    TicketCount { sent: usize, received: usize },
    /// The chunk size is zero.
    ChunkSize,
}

} // verus!
