use vstd::prelude::*;

verus! {

/// Bytes that make up one pixel of a captured image.
pub const BYTES_PER_PIXEL: u32 = 4;

/// Raw pixels of a capture: `width * height` pixels of four bytes each,
/// row by row.
pub struct RawImage {
    pub width: u32,
    pub height: u32,
    pub data: Vec<u8>,
}

impl RawImage {
    /// The buffer holds exactly four bytes for each pixel.
    pub open spec fn well_formed(&self) -> bool {
        self.data@.len() == self.width * self.height * BYTES_PER_PIXEL
    }

    pub fn new(width: u32, height: u32, data: Vec<u8>) -> (r: Self)
        ensures
            r.width == width,
            r.height == height,
            r.data@ == data@,
    {
        RawImage { width, height, data }
    }

    /// Whether the buffer's length matches the image's size.
    pub fn is_well_formed(&self) -> (r: bool)
        ensures
            r == self.well_formed(),
    {
        let w = self.width as u128;
        let h = self.height as u128;
        assert(w * h <= 0xffff_fffe_0000_0001u128) by (nonlinear_arith)
            requires
                w <= 0xffff_ffffu128,
                h <= 0xffff_ffffu128,
        ;
        let pixels = w * h;
        let expected = pixels * 4;
        self.data.len() as u128 == expected
    }
}

} // verus!
