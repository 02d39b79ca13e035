//! Pixel sink: a 256 x 240 RGB framebuffer that the PPU draws into and
//! the host presents.

use vstd::prelude::*;

verus! {

pub const SCREEN_WIDTH: u32 = 256;
pub const SCREEN_HEIGHT: u32 = 240;
pub const FRAME_BYTES: usize = 184320;

/// Byte offset of pixel (x, y) in the RGB24 framebuffer; coordinates
/// wrap at the screen edges.
pub open spec fn spec_coords(x: u32, y: u32) -> int {
    ((x % 256) + 256 * (y % 240)) * 3
}

pub fn get_coords(x: u32, y: u32) -> (r: u32)
    ensures
        r == spec_coords(x, y),
        r + 2 < FRAME_BYTES,
{
    let xm = x % SCREEN_WIDTH;
    let ym = y % SCREEN_HEIGHT;
    (xm + SCREEN_WIDTH * ym) * 3
}

/// Splits a packed 0xRRGGBB colour into its three channels.
pub fn get_rgb(color: u32) -> (r: (u8, u8, u8))
    ensures
        r.0 == (color & 0xFF0000) >> 16,
        r.1 == (color & 0x00FF00) >> 8,
        r.2 == color & 0x0000FF,
    {
    proof {
        let c = color;
        assert((c & 0xFF0000) >> 16 < 256 && (c & 0x00FF00) >> 8 < 256 && (c & 0x0000FF) < 256)
            by (bit_vector);
    }
    let r = ((color & 0xFF0000) >> 16) as u8;
    let g = ((color & 0x00FF00) >> 8) as u8;
    let b = (color & 0x0000FF) as u8;
    (r, g, b)
}

/// One frame of output pixels, three bytes per pixel.
pub struct Frame {
    pub display: Vec<u8>,
}

impl View for Frame {
    type V = Seq<u8>;

    open spec fn view(&self) -> Seq<u8> {
        self.display@
    }
}

/// Frame contents after one pixel write.
pub open spec fn frame_set_pixel(f: Seq<u8>, x: u32, y: u32, color: (u8, u8, u8)) -> Seq<u8> {
    f.update(spec_coords(x, y), color.0).update(spec_coords(x, y) + 1, color.1).update(
        spec_coords(x, y) + 2,
        color.2,
    )
}

impl Frame {
    pub open spec fn wf(&self) -> bool {
        self@.len() == FRAME_BYTES
    }

    pub fn new() -> (r: Frame)
        ensures
            r.wf(),
            forall|i: int| 0 <= i < FRAME_BYTES ==> r@[i] == 0u8,
    {
        let mut display: Vec<u8> = Vec::new();
        display.resize(FRAME_BYTES, 0u8);
        Frame { display }
    }

    /// Paints pixel (x, y); coordinates wrap at the screen edges.
    pub fn set_pixel_rgb(&mut self, x: u32, y: u32, color: (u8, u8, u8))
        requires
            old(self).wf(),
        ensures
            final(self).wf(),
            final(self)@ == frame_set_pixel(old(self)@, x, y, color),
    {
        let coords = get_coords(x, y) as usize;
        self.display[coords] = color.0;
        self.display[coords + 1] = color.1;
        self.display[coords + 2] = color.2;
    }

    /// Clears the frame to black.
    pub fn reset(&mut self)
        requires
            old(self).wf(),
        ensures
            final(self).wf(),
            forall|i: int| 0 <= i < FRAME_BYTES ==> final(self)@[i] == 0u8,
    {
        let mut display: Vec<u8> = Vec::new();
        display.resize(FRAME_BYTES, 0u8);
        self.display = display;
    }

    /// The raw RGB24 bytes, for the host to hand to its window.
    pub fn bytes(&self) -> (r: &Vec<u8>)
        ensures
            r@ == self@,
    {
        &self.display
    }
}

} // verus!
