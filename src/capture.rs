use vstd::prelude::*;

use crate::display::Display;

pub mod quartz;
pub mod windows_dc;

verus! {

/// What one poll of a capture backend hands out: new pixel data, or word that
/// nothing new has arrived since the last poll. `Blocking` never means that
/// the call itself waited.
#[derive(Debug)]
pub enum Frame<T> {
    Ready(T),
    Blocking,
}

/// A capture backend, polled by its consumer once per tick.
pub trait Capture<T> {
    fn frame(&mut self) -> Frame<T>;
}

/// The number of frames a queueing backend keeps unless told otherwise.
pub const DEFAULT_FRAME_QUEUE: u8 = 3;

/// Bytes per pixel of every frame: packed 32-bit pixels.
pub const BYTES_PER_PIXEL: u64 = 4;

/// The largest width or height that a backend takes.
pub const MAX_EXTENT: u32 = 0x7fff_ffff;

/// The number of bytes that a frame of `width` by `height` pixels holds.
pub open spec fn frame_len(width: u32, height: u32) -> int {
    width as int * height as int * BYTES_PER_PIXEL as int
}

/// The number of bytes that a frame of `width` by `height` pixels holds.
pub fn frame_bytes(width: u32, height: u32) -> (r: u64)
    requires
        width <= MAX_EXTENT,
        height <= MAX_EXTENT,
    ensures
        r == frame_len(width, height),
{
    let w = width as u64;
    let h = height as u64;
    proof {
        assert(w * h <= 0x7fff_ffff * 0x7fff_ffff) by (nonlinear_arith)
            requires
                w <= 0x7fff_ffff,
                h <= 0x7fff_ffff,
        ;
    }
    w * h * BYTES_PER_PIXEL
}

/// Nanoseconds in one second.
pub const NANOS_PER_SECOND: u64 = 1_000_000_000;

/// Native stream creation or start failed; `code` is the platform's error code.
#[derive(Debug, Clone, Copy, PartialEq, Eq, Structural)]
pub struct CaptureInitError {
    pub code: i32,
}

/// How to capture: the target display, whether the cursor is drawn, a ceiling
/// on the frame rate in Hz (0: as fast as the platform delivers), and how many
/// frames a queueing backend may buffer.
#[derive(Debug, Clone, Copy, PartialEq, Eq, Structural)]
pub struct CaptureOpts {
    pub cursor: bool,
    pub display: Display,
    pub frame_rate: u32,
    pub frame_queue: u8,
}

impl CaptureOpts {
    /// Options for `display`, with the cursor shown, no rate ceiling and the
    /// default queue depth.
    pub fn new(display: Display) -> (r: CaptureOpts)
        ensures
            r == (CaptureOpts {
                cursor: true,
                display,
                frame_rate: 0,
                frame_queue: DEFAULT_FRAME_QUEUE,
            }),
    {
        CaptureOpts { cursor: true, display, frame_rate: 0, frame_queue: DEFAULT_FRAME_QUEUE }
    }

    pub fn cursor(&mut self, cursor: bool) -> (r: &mut CaptureOpts)
        ensures
            *r == (CaptureOpts { cursor, ..*old(self) }),
            *final(self) == *final(r),
    {
        self.cursor = cursor;
        self
    }

    pub fn frame_rate(&mut self, frame_rate: u32) -> (r: &mut CaptureOpts)
        ensures
            *r == (CaptureOpts { frame_rate, ..*old(self) }),
            *final(self) == *final(r),
    {
        self.frame_rate = frame_rate;
        self
    }

    pub fn frame_queue(&mut self, frame_queue: u8) -> (r: &mut CaptureOpts)
        ensures
            *r == (CaptureOpts { frame_queue, ..*old(self) }),
            *final(self) == *final(r),
    {
        self.frame_queue = frame_queue;
        self
    }
}

} // verus!
