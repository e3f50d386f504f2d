//! Decoded frames as they travel from the decoder to the renderer.
//!
//! A frame is owned by whoever holds it: it is moved through queues, never
//! shared.

use vstd::prelude::*;

verus! {

/// One decoded frame: a pixel buffer of three bytes per pixel, row by row,
/// with the size the decoder says it has.
#[derive(Clone, Debug)]
pub struct FrameData {
    /// The pixels.
    pub buffer: Vec<u8>,
    /// Width in pixels.
    pub width: u32,
    /// Height in pixels.
    pub height: u32,
}

impl FrameData {
    /// A frame of the given pixels and size.
    pub fn new(buffer: Vec<u8>, width: u32, height: u32) -> (frame: Self)
        ensures
            frame.buffer == buffer,
            frame.width == width,
            frame.height == height,
    {
        FrameData { buffer, width, height }
    }

    /// Number of bytes that a frame of this size has when it is complete.
    pub open spec fn expected_len(self) -> int {
        self.width * self.height * 3
    }

    /// Whether the buffer holds every pixel of the frame.
    pub fn is_complete(&self) -> (complete: bool)
        ensures
            complete == (self.buffer@.len() >= self.expected_len()),
    {
        assert(self.width * self.height <= 0xffff_ffff * 0xffff_ffff) by (nonlinear_arith)
            requires
                self.width <= 0xffff_ffff,
                self.height <= 0xffff_ffff,
        ;
        let pixels: u64 = self.width as u64 * self.height as u64;
        let needed: u128 = pixels as u128 * 3;
        self.buffer.len() as u128 >= needed
    }
}

/// A frame with the time at which it is due.
#[derive(Clone, Debug)]
pub struct TimestampedFrame {
    /// The frame.
    pub frame: FrameData,
    /// When the frame is due, in microseconds from the start of playback.
    pub timestamp: u64,
}

impl TimestampedFrame {
    /// A frame due at the given time.
    pub fn new(frame: FrameData, timestamp: u64) -> (stamped: Self)
        ensures
            stamped.frame == frame,
            stamped.timestamp == timestamp,
    {
        TimestampedFrame { frame, timestamp }
    }
}

} // verus!
