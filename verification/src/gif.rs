//! Buffers used while recording GIF frames.

use vstd::prelude::*;

verus! {

/// One encoded chunk of a GIF stream.
#[derive(Debug, Clone, PartialEq, Eq)]
pub struct MsfGifBuffer {
    pub data: Vec<u8>,
}

impl MsfGifBuffer {
    /// An empty chunk.
    pub fn new() -> (b: Self)
        ensures
            b.data@ == Seq::<u8>::empty(),
    {
        Self { data: Vec::new() }
    }
}

} // verus!
