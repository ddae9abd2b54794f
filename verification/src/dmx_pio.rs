//! Staging of a DMX frame for the PIO transmitter: the loop count first, then one word
//! per byte.
use vstd::prelude::*;

verus! {

/// Words pushed per frame: the PIO loop counter followed by the frame bytes.
pub const DMX_WORDS_PER_FRAME: usize = 514;

/// The words handed to the DMA for one frame: 512 (the byte count minus one, for the
/// PIO's `jmp x--` loop), then each byte of the frame widened to a word.
pub fn frame_words(data: &[u8; 513]) -> (r: [u32; 514])
    ensures
        r@[0] == 512,
        forall|i: int| 0 <= i < 513 ==> #[trigger] r@[i + 1] == data@[i],
{
    let mut words = [0u32; 514];
    words[0] = 512;
    for i in 0..513usize
        invariant
            words@.len() == 514,
            words@[0] == 512,
            forall|k: int| 0 <= k < i ==> #[trigger] words@[k + 1] == data@[k],
    {
        words[i + 1] = data[i] as u32;
    }
    words
}

} // verus!
