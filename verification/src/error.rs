use vstd::prelude::*;

verus! {

/// What went wrong on the byte stream, as far as the dispatcher tells cases
/// apart.
#[derive(Copy, Clone, Debug, PartialEq, Eq, Hash, Structural)]
pub enum IoErrorKind {
    /// The operation would block; not a failure of the connection.
    WouldBlock,
    /// The peer reset the connection.
    ConnectionReset,
    /// A write accepted no bytes although some were offered.
    WriteZero,
    /// Any other failure.
    Other,
}

/// Why a message could not be parsed.
#[derive(Copy, Clone, Debug, PartialEq, Eq, Hash, Structural)]
pub enum ParseError {
    /// Invalid method.
    Method,
    /// Invalid request target.
    Uri,
    /// Invalid protocol version.
    Version,
    /// Invalid header.
    Header,
    /// The message head is too large.
    TooLarge,
    /// The message is incomplete.
    Incomplete,
    /// Invalid status code.
    Status,
    /// A timeout while reading the message.
    Timeout,
    /// The stream failed while the message was read.
    Io(IoErrorKind),
    /// The bytes are not valid UTF-8.
    Utf8,
}

/// How a request body ended before its time.
#[derive(Copy, Clone, Debug, PartialEq, Eq, Hash, Structural)]
pub enum PayloadError {
    /// The connection went away before the body was complete.
    Incomplete,
    /// The body's framing could not be decoded.
    EncodingCorrupted,
}

/// Why a connection's task ended in failure.
#[derive(Copy, Clone, Debug, PartialEq, Eq, Hash, Structural)]
pub enum DispatchError {
    /// The response body's source failed while it was streamed.
    Service,
    /// The upgrade handler failed.
    Upgrade,
    /// The stream failed.
    Io(IoErrorKind),
    /// A request was malformed.
    Parse(ParseError),
    /// The peer did not let the connection close within the grace period.
    DisconnectTimeout,
    /// The decoder produced body data that belongs to no request.
    InternalError,
}

} // verus!
