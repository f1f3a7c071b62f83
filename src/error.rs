use vstd::prelude::*;

verus! {

/// The errors that tracing surfaces.
#[derive(Debug, Clone, PartialEq, Eq)]
pub enum TracerError {
    /// The requested packet size is outside what an echo request can carry.
    InvalidPacketSize(usize),
    /// A packet was truncated or malformed.
    PacketParseError,
    /// Sending or receiving failed.
    TransportError(String),
    /// The raw-socket channel could not be opened.
    ChannelCreationError(String),
}

/// The result of a tracing operation.
pub type TraceResult<T> = Result<T, TracerError>;

} // verus!
