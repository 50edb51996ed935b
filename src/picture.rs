use vstd::prelude::*;

verus! {

/// A decoded picture: `width * height` pixels, row by row, each packed as
/// alpha, red, green, blue from the high byte down.
pub struct DecodedImage {
    pub width: usize,
    pub height: usize,
    pub pixels: Vec<u32>,
}

/// An outcome of decoding a photo's bytes, as mathematical values: the sides and
/// pixels of the picture, or the text of the decoder's error.
pub open spec fn decoding_of(d: Result<DecodedImage, String>) -> Result<(usize, usize, Seq<u32>), Seq<char>> {
    match d {
        Ok(p) => Ok((p.width, p.height, p.pixels@)),
        Err(e) => Err(e@),
    }
}

} // verus!
