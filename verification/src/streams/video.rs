use vstd::prelude::*;

verus! {

/// Whether a video stream hands a decoded frame to its channel: always when
/// the stream is set to block, and otherwise only when the channel has at
/// least one active subscriber (a broadcast with none would wait for one).
pub fn forwards_frame(blocking: bool, receivers: usize) -> (forward: bool)
    ensures
        forward == (blocking || receivers > 0),
{
    blocking || receivers > 0
}

} // verus!
