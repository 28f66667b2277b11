//! Error values of the bitstream functions.

use vstd::prelude::*;

verus! {

/// Why a buffer could not be turned into a start-code stream.
#[derive(Debug, Clone, Copy, PartialEq, Eq, Structural)]
pub enum BitstreamError {
    /// A length prefix decodes to zero.
    ZeroLength,
    /// A declared length or a fixed field reaches past the end of the buffer.
    Truncated,
    /// The codec identifier names no codec family that is handled here.
    UnsupportedCodec,
}

/// Why a viewer's negotiation was refused.
#[derive(Debug, Clone, Copy, PartialEq, Eq, Structural)]
pub enum NegotiationError {
    /// No configured stream has the name asked for.
    StreamNotFound,
    /// The offer is not text.
    MalformedOffer,
    /// The media engine failed at some step of the negotiation.
    EngineFailure,
}

/// A teardown named an id under which no session is live.
#[derive(Debug, Clone, Copy, PartialEq, Eq, Structural)]
pub struct SessionNotFound;

/// Why a stream's ingestion ended.
#[derive(Debug, Clone, Copy, PartialEq, Eq, Structural)]
pub enum IngestionError {
    /// The transport asked for is neither `tcp` nor `udp`.
    BadTransport,
    /// The session describes no video substream in a supported encoding.
    NoVideoStream,
    /// The video substream came without codec parameters.
    NoVideoParameters,
    /// The stream ended.
    EndOfStream,
    /// The session failed: in the handshake, in the transport negotiation or
    /// on a malformed access unit.
    SessionFailed,
}

/// Why a stream entry of the configuration defines no stream.
#[derive(Debug, Clone, Copy, PartialEq, Eq, Structural)]
pub enum ConfigError {
    /// The entry gives no address for its video.
    MissingAddress,
    /// The address is not an absolute URL.
    BadAddress,
}

} // verus!
