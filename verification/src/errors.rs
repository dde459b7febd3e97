//! Error taxonomy of the fetch engine.
//!
//! The mirror-list errors are fatal to a run: with no mirror list there is
//! nothing to fall back to. The download errors are per-attempt and
//! non-fatal: the fallback loop records them and moves to the next mirror.

use vstd::prelude::*;

verus! {

/// Why a mirror list could not be produced. Every variant aborts the run.
#[derive(Debug, Clone, PartialEq, Eq)]
pub enum MirrorListError {
    /// The mirror-list endpoint was unreachable or answered with a
    /// non-success status. The payload carries a diagnostic message.
    NetworkError(String),
    /// The response could not be decoded as text.
    ParseError(String),
    /// The body held no line with an HTTP(S) scheme prefix.
    NoMirrorsAvailable,
}

/// Why one download attempt against one mirror failed. Every variant is
/// non-fatal to the run: the caller records it and tries the next mirror.
#[derive(Debug, Clone, PartialEq, Eq)]
pub enum DownloadError {
    /// The request could not be sent or the transport failed before a
    /// response arrived. The payload carries a diagnostic message.
    Transport(String),
    /// The response declared no content length, so streaming never began.
    UnknownContentLength,
    /// A chunk read failed mid-stream, or the body ended before the
    /// declared total. The payload is the byte count received so far.
    StreamInterrupted(u64),
}

} // verus!
