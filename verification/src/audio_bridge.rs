//! The frame layout at the audio boundary.
//!
//! The host's audio callback hands over a buffer that is sliced into frames
//! of `channels` samples each.  For every frame the engine yields one
//! stereo pair, whose left value belongs to the even-indexed channels of
//! the frame and whose right value to the odd-indexed ones.  This module
//! verifies that layout; pulling the pairs and converting the encoded
//! samples to the sink's native format happens in the surrounding shell.

use vstd::prelude::*;

verus! {

/// Writes one stereo pair into the frame that starts at `start`: `left`
/// into the frame's even channels, `right` into its odd channels.  The
/// rest of the buffer is untouched.
pub fn write_data(output: &mut Vec<u32>, start: usize, channels: usize, left: u32, right: u32)
    requires
        start + channels <= old(output)@.len(),
    ensures
        final(output)@.len() == old(output)@.len(),
        forall|i: int|
            start <= i < start + channels ==> final(output)@[i] == if (i - start) % 2 == 0 {
                left
            } else {
                right
            },
        forall|i: int|
            (0 <= i < start || start + channels <= i < old(output)@.len()) ==> final(output)@[i]
                == old(output)@[i],
{
    let total = output.len();
    let mut c: usize = 0;
    while c < channels
        invariant
            c <= channels,
            start + channels <= total,
            total == output@.len(),
            output@.len() == old(output)@.len(),
            forall|i: int|
                start <= i < start + c ==> output@[i] == if (i - start) % 2 == 0 {
                    left
                } else {
                    right
                },
            forall|i: int|
                (0 <= i < start || start + c <= i < old(output)@.len()) ==> output@[i] == old(
                    output,
                )@[i],
        decreases channels - c,
    {
        if c % 2 == 0 {
            output.set(start + c, left);
        } else {
            output.set(start + c, right);
        }
        c = c + 1;
    }
}

} // verus!
