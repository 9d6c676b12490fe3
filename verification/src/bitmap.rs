//! Bitmaps: pre-encoded 16-bit pixel data with a declared row width.

use vstd::prelude::*;

verus! {

/// An immutable bitmap: raw pixel bytes, already encoded in the panel's
/// 16-bit format and byte order, plus the declared row width in pixels.
/// A bitmap is plain data; whether its shape is usable is checked when it
/// is drawn.
#[derive(Debug)]
pub struct Bitmap {
    /// Pixel bytes in raster order: row-major, left-to-right, top-to-bottom.
    pub data: Vec<u8>,
    /// Declared row width, in pixels.
    pub width: u16,
}

impl Bitmap {
    /// The declared row width, in pixels.
    pub open spec fn width_px(self) -> int {
        self.width as int
    }

    /// The byte count describes at least one whole row of whole 16-bit
    /// pixels: the width is positive, the bytes split into 16-bit pixels,
    /// and the pixel count divides evenly into rows.
    pub open spec fn well_shaped(self) -> bool {
        &&& 0 < self.width
        &&& 0 < self.data@.len()
        &&& self.data@.len() % 2 == 0
        &&& ((self.data@.len() as int) / 2) % (self.width as int) == 0
    }

    /// The derived height in pixel rows: total pixel count over row width.
    pub open spec fn height_px(self) -> int {
        ((self.data@.len() as int) / 2) / (self.width as int)
    }

    /// Builds a bitmap from raw pixel bytes and a declared row width.
    pub fn new(data: Vec<u8>, width: u16) -> (b: Bitmap)
        ensures
            b.data == data,
            b.width == width,
    {
        Bitmap { data, width }
    }
}

} // verus!
