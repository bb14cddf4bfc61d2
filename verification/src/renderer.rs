//! Pixel-buffer extraction.
//!
//! [`FrameExtractor`] carries the dimensions of a render target and produces
//! the frame buffer for it. No GPU read-back is performed anywhere in this
//! crate: the extractor is a documented placeholder that yields a zero-filled
//! RGBA buffer of the right size, and callers must not treat its output as
//! rendered content.

use vstd::prelude::*;

verus! {

/// The number of bytes a frame buffer holds: four bytes (RGBA) per pixel.
pub open spec fn frame_buffer_len(width: u32, height: u32) -> int {
    width * height * 4
}

/// Every byte of the sequence is zero.
pub open spec fn all_zero(s: Seq<u8>) -> bool {
    forall|i: int| 0 <= i < s.len() ==> s[i] == 0
}

/// Builds a zero-filled byte buffer of the given length.
fn zero_buffer(len: usize) -> (buf: Vec<u8>)
    ensures
        buf@.len() == len,
        all_zero(buf@),
{
    let mut buf: Vec<u8> = Vec::new();
    let mut i: usize = 0;
    while i < len
        invariant
            i <= len,
            buf@.len() == i,
            all_zero(buf@),
        decreases len - i,
    {
        buf.push(0u8);
        i = i + 1;
    }
    buf
}

/// Extracts pixel data for a render target of fixed dimensions.
pub struct FrameExtractor {
    pub width: u32,
    pub height: u32,
}

impl FrameExtractor {
    pub fn new(width: u32, height: u32) -> (extractor: Self)
        ensures
            extractor.width == width,
            extractor.height == height,
    {
        Self { width, height }
    }

    /// Returns the frame buffer for the render target.
    ///
    /// This is a placeholder, not a real capability: no synchronization, no
    /// GPU-to-CPU transfer and no format conversion happen, so the buffer is
    /// `width * height * 4` zero bytes whatever was rendered.
    pub fn extract_frame(&self) -> (buf: Vec<u8>)
        requires
            frame_buffer_len(self.width, self.height) <= usize::MAX,
        ensures
            buf@.len() == frame_buffer_len(self.width, self.height),
            all_zero(buf@),
    {
        let len: usize = (self.width as usize) * (self.height as usize) * 4;
        zero_buffer(len)
    }
}

} // verus!
