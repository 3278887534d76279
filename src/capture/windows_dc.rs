use vstd::prelude::*;

use crate::capture::{frame_bytes, frame_len, Capture, CaptureOpts, Frame, MAX_EXTENT};

verus! {

/// The size in bytes of the bitmap header that the platform expects.
pub const BITMAP_HEADER_SIZE: u32 = 40;

/// Bits per pixel of the off-screen bitmap.
pub const BITS_PER_PIXEL: u16 = 32;

/// The header of the off-screen bitmap, sized to the display.
#[derive(Debug, Clone, Copy, PartialEq, Eq, Structural)]
pub struct BitmapHeader {
    pub size: u32,
    pub width: i32,
    pub height: i32,
    pub planes: u16,
    pub bit_count: u16,
}

/// One block copy from the live display into the off-screen bitmap: the
/// rectangle of `width` by `height` pixels at (`src_x`, `src_y`) on the
/// display lands at (`dest_x`, `dest_y`) in the bitmap, which then holds
/// `byte_len` bytes of fresh pixels.
#[derive(Debug, Clone, Copy, PartialEq, Eq, Structural)]
pub struct BlitCopy {
    pub dest_x: i32,
    pub dest_y: i32,
    pub width: i32,
    pub height: i32,
    pub src_x: i32,
    pub src_y: i32,
    pub byte_len: u64,
}

/// One native operation of the blit backend's teardown.
#[derive(Debug, Clone, Copy, PartialEq, Eq, Structural)]
pub enum DcOp {
    /// Put the context's previous bitmap back, unbinding ours.
    SelectPrevious,
    DeleteBitmap,
    DeleteContext,
}

/// The decisions of the synchronous backend: each poll copies the whole
/// display rectangle into the backend's own bitmap and hands it out as fresh.
#[derive(Debug)]
pub struct DisplayContextCapture {
    x: i32,
    y: i32,
    width: u32,
    height: u32,
    byte_len: u64,
    live: bool,
}

pub open spec fn teardown_ops_of() -> Seq<DcOp> {
    seq![DcOp::SelectPrevious, DcOp::DeleteBitmap, DcOp::DeleteContext]
}

impl DisplayContextCapture {
    pub closed spec fn view_rect(&self) -> (i32, i32, u32, u32) {
        (self.x, self.y, self.width, self.height)
    }

    pub closed spec fn view_live(&self) -> bool {
        self.live
    }

    pub closed spec fn view_len(&self) -> u64 {
        self.byte_len
    }

    /// The copy that every poll of this backend performs.
    pub open spec fn copy_of(&self) -> BlitCopy {
        BlitCopy {
            dest_x: 0,
            dest_y: 0,
            width: self.view_rect().2 as i32,
            height: self.view_rect().3 as i32,
            src_x: self.view_rect().0,
            src_y: self.view_rect().1,
            byte_len: self.view_len(),
        }
    }

    /// The backend for the display of `opts`, whose size the platform's copy
    /// call must be able to take.
    pub fn new(opts: CaptureOpts) -> (r: DisplayContextCapture)
        requires
            opts.display.width <= MAX_EXTENT,
            opts.display.height <= MAX_EXTENT,
        ensures
            r.view_live(),
            r.view_rect() == (opts.display.x, opts.display.y, opts.display.width, opts.display.height),
            r.view_len() == frame_len(opts.display.width, opts.display.height),
    {
        DisplayContextCapture {
            byte_len: frame_bytes(opts.display.width, opts.display.height),
            x: opts.display.x,
            y: opts.display.y,
            width: opts.display.width,
            height: opts.display.height,
            live: true,
        }
    }

    /// The header of a bottom-up bitmap of 32-bit pixels, as wide and as high
    /// as the display.
    pub fn create_bitmap(opts: &CaptureOpts) -> (r: BitmapHeader)
        requires
            opts.display.width <= MAX_EXTENT,
            opts.display.height <= MAX_EXTENT,
        ensures
            r == (BitmapHeader {
                size: BITMAP_HEADER_SIZE,
                width: opts.display.width as i32,
                height: opts.display.height as i32,
                planes: 1,
                bit_count: BITS_PER_PIXEL,
            }),
    {
        BitmapHeader {
            size: BITMAP_HEADER_SIZE,
            width: opts.display.width as i32,
            height: opts.display.height as i32,
            planes: 1,
            bit_count: BITS_PER_PIXEL,
        }
    }

    /// The number of bytes that one frame holds: four per pixel.
    pub fn frame_len(&self) -> (r: u64)
        ensures
            r == self.view_len(),
    {
        self.byte_len
    }

    /// The copy of the whole display rectangle into the bitmap, handed out as
    /// fresh pixels. The backend itself is left as it was, so every poll
    /// copies the same rectangle.
    pub fn poll(&mut self) -> (r: Frame<BlitCopy>)
        ensures
            *final(self) == *old(self),
            r == Frame::Ready(old(self).copy_of()),
    {
        let byte_len = self.byte_len;
        Frame::Ready(
            BlitCopy {
                dest_x: 0,
                dest_y: 0,
                width: self.width as i32,
                height: self.height as i32,
                src_x: self.x,
                src_y: self.y,
                byte_len,
            },
        )
    }

    /// Ends the backend, once: unbind the bitmap from the context, delete the
    /// bitmap, delete the context. A second teardown does nothing.
    pub fn teardown(&mut self) -> (r: Vec<DcOp>)
        ensures
            !final(self).view_live(),
            final(self).view_rect() == old(self).view_rect(),
            final(self).view_len() == old(self).view_len(),
            old(self).view_live() ==> r@ == teardown_ops_of(),
            !old(self).view_live() ==> r@ == Seq::<DcOp>::empty(),
    {
        if !self.live {
            return Vec::new();
        }
        self.live = false;
        let r = vec![DcOp::SelectPrevious, DcOp::DeleteBitmap, DcOp::DeleteContext];
        proof {
            assert(r@ =~= teardown_ops_of());
        }
        r
    }
}

impl Capture<BlitCopy> for DisplayContextCapture {
    /// Copies the whole display rectangle into the bitmap and hands it out as
    /// fresh pixels, leaving the backend as it was.
    fn frame(&mut self) -> (r: Frame<BlitCopy>)
        ensures
            *final(self) == *old(self),
            r == Frame::Ready(old(self).copy_of()),
    {
        self.poll()
    }
}

} // verus!
