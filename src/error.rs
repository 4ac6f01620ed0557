use vstd::prelude::*;

verus! {

/// The closed set of failures shared by every part of the server.
///
/// Failures that come from outside the library (the database, the
/// operating system) carry a description of their cause.
#[derive(Clone, Debug, PartialEq, Eq)]
pub enum Error {
    /// A frame's payload is not a valid message.
    MessageParse,
    /// A message of variant `Response` arrived where a request was expected.
    NotRequest,
    /// The first request of a session is not a handshake.
    NotHandshake,
    /// The database failed.
    Database(String),
    /// A database migration failed.
    DatabaseMigration(String),
    /// The logger could not be installed.
    LogInit,
    /// An integer does not fit in its target type.
    IntConversion,
    /// An input/output operation failed.
    Io(String),
    /// The node is not registered.
    Auth,
    /// The node stayed silent for longer than allowed.
    StallTimeExceeded,
    /// A frame announces a length of zero or above the largest frame.
    IllegalMessageLength,
    /// A frame does not fit in the receive buffer.
    InvalidBuffer,
    /// A message id was seen among the recent ones.
    DuplicateMessage,
    /// A message is too large to be framed.
    MessageTooLarge,
    /// The time zone is not supported.
    InvalidTimeZone(String),
    /// A slice does not have the length of the array it should fill.
    ArrayFromSliceSizeMismatch,
    /// A subprocess exited with an error.
    SubprocessExit,
    /// Bytes are not valid UTF-8.
    StringFromUtf8Bytes,
    /// The session sent more requests than its rate allows.
    TooManyRequests,
    /// An operation needs an authenticated session.
    ClientNotAuthenticated,
}

impl Error {
    /// A short description of the failure.
    pub fn describe(&self) -> (r: String) {
        let s = match self {
            Error::MessageParse => "Failed to parse message",
            Error::NotRequest => "Expected message of variant `Request`, got `Response` instead",
            Error::NotHandshake => "Expected a handshake request",
            Error::Database(_) => "Database error",
            Error::DatabaseMigration(_) => "Database migration error",
            Error::LogInit => "Failed to set global logger",
            Error::IntConversion => "Integer conversion error",
            Error::Io(_) => "I/O error",
            Error::Auth => "Node authentication failed",
            Error::StallTimeExceeded => "Node stalled for too long",
            Error::IllegalMessageLength => "Message length is zero, too large, or generally invalid",
            Error::InvalidBuffer => "The provided buffer is too small",
            Error::DuplicateMessage => "Duplicate message",
            Error::MessageTooLarge => "Message is too large to send",
            Error::InvalidTimeZone(_) => "Invalid or unsupported time zone",
            Error::ArrayFromSliceSizeMismatch => "Slice length does not match the expected array length",
            Error::SubprocessExit => "A process has returned a non-zero exit code",
            Error::StringFromUtf8Bytes => "Failed to parse a UTF-8 string",
            Error::TooManyRequests => "Too many requests",
            Error::ClientNotAuthenticated => "Client is not authenticated",
        };
        s.to_owned()
    }

    /// Whether the failure is one of the framing failures of the codec.
    pub open spec fn is_framing(self) -> bool {
        ||| self is IllegalMessageLength
        ||| self is InvalidBuffer
        ||| self is MessageTooLarge
        ||| self is MessageParse
        ||| self is NotRequest
        ||| self is DuplicateMessage
    }
}

} // verus!
