//! Byte accounting for one download attempt.
//!
//! One `AttemptProgress` value lives exactly as long as one attempt against
//! one mirror: it is created from the declared content length, advanced once
//! per received chunk, and finally turned into the attempt's result. The
//! received counter is monotonically non-decreasing and clamped so that it
//! never exceeds the declared total, even when chunk accounting would
//! overshoot.

use vstd::prelude::*;

use crate::errors::DownloadError;

verus! {

/// Progress of a single download attempt: bytes expected and bytes received.
pub struct AttemptProgress {
    /// The total byte count the response declared.
    pub total: u64,
    /// Bytes received so far, clamped to `total`.
    pub received: u64,
}

/// One progress update, as handed to a progress sink after each chunk.
pub struct ProgressEvent {
    pub bytes_received: u64,
    pub total_bytes: u64,
    pub elapsed_ms: u64,
}

impl AttemptProgress {
    /// The received counter never exceeds the declared total.
    pub open spec fn wf(&self) -> bool {
        self.received <= self.total
    }

    /// Gate of an attempt: streaming may start only on a response that
    /// declares its content length. A response without one yields
    /// `UnknownContentLength` and no progress state at all, so no byte of
    /// such a body is ever consumed.
    pub fn begin_attempt(content_length: Option<u64>) -> (r: Result<AttemptProgress, DownloadError>)
        ensures
            match content_length {
                Some(t) => r matches Ok(p) && p.total == t && p.received == 0 && p.wf(),
                None => r == Err::<AttemptProgress, DownloadError>(DownloadError::UnknownContentLength),
            },
    {
        match content_length {
            Some(t) => Ok(AttemptProgress { total: t, received: 0 }),
            None => Err(DownloadError::UnknownContentLength),
        }
    }

    /// Account for one received chunk. The counter grows by the chunk
    /// length but is clamped at the declared total, and never decreases.
    pub fn record_chunk(&mut self, chunk_len: usize)
        requires
            old(self).wf(),
        ensures
            final(self).wf(),
            final(self).total == old(self).total,
            final(self).received as int == vstd::math::min(
                old(self).received + chunk_len,
                old(self).total as int,
            ),
            old(self).received <= final(self).received,
    {
        let len = chunk_len as u64;
        if self.total - self.received < len {
            self.received = self.total;
        } else {
            self.received = self.received + len;
        }
    }

    /// The update to hand to a progress sink after a chunk, with the elapsed
    /// time supplied by the caller's clock.
    pub fn event(&self, elapsed_ms: u64) -> (e: ProgressEvent)
        ensures
            e.bytes_received == self.received,
            e.total_bytes == self.total,
            e.elapsed_ms == elapsed_ms,
    {
        ProgressEvent {
            bytes_received: self.received,
            total_bytes: self.total,
            elapsed_ms,
        }
    }

    /// The failure to record when a chunk read fails mid-stream: the attempt
    /// is interrupted at the bytes received so far. The same mirror is not
    /// retried; that decision belongs to the fallback loop.
    pub fn interrupted(&self) -> (e: DownloadError)
        ensures
            e == DownloadError::StreamInterrupted(self.received),
    {
        DownloadError::StreamInterrupted(self.received)
    }

    /// Close the attempt once the body is exhausted. Success is claimed
    /// exactly when every declared byte arrived; a body that ended short is
    /// an interrupted stream, not a success.
    pub fn finish(self) -> (r: Result<u64, DownloadError>)
        requires
            self.wf(),
        ensures
            self.received == self.total ==> r == Ok::<u64, DownloadError>(self.total),
            self.received < self.total ==> r == Err::<u64, DownloadError>(
                DownloadError::StreamInterrupted(self.received),
            ),
    {
        if self.received == self.total {
            Ok(self.total)
        } else {
            Err(DownloadError::StreamInterrupted(self.received))
        }
    }
}

/// Transfer rate in bytes per second, from bytes moved and elapsed
/// milliseconds: zero while no time has elapsed, otherwise
/// `bytes * 1000 / elapsed_ms`, saturated at the largest `u64`.
pub fn transfer_rate(bytes: u64, elapsed_ms: u64) -> (r: u64)
    ensures
        elapsed_ms == 0 ==> r == 0,
        elapsed_ms > 0 ==> r as int == vstd::math::min(
            bytes * 1000 / elapsed_ms as int,
            u64::MAX as int,
        ),
{
    if elapsed_ms == 0 {
        return 0;
    }
    let scaled = (bytes as u128) * 1000 / (elapsed_ms as u128);
    if scaled > u64::MAX as u128 {
        u64::MAX
    } else {
        scaled as u64
    }
}

} // verus!
