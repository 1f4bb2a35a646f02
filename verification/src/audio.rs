//! The audio sink's backpressure policy.
//!
//! The host queue buffers about one second of interleaved stereo
//! samples.  Presentation must never block on audio: when the queue has
//! grown past its bound, it is dropped whole rather than waited on.

use vstd::prelude::*;

verus! {

/// About one second of interleaved stereo samples, in queue bytes.
pub const MAX_BUFFER_BYTES: u32 = 352_800;

/// Whether the queue must be dropped before more samples go in:
/// exactly when it holds more than the bound.
pub fn should_drop_queue(queued_bytes: u32) -> (r: bool)
    ensures
        r == (queued_bytes > MAX_BUFFER_BYTES),
{
    queued_bytes > MAX_BUFFER_BYTES
}

} // verus!
