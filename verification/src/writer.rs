use vstd::prelude::*;
use crate::frame::VideoFrame;

verus! {

/// The PNG serialization of a tightly packed RGB pixel buffer with the
/// given dimensions. The encoded bytes are a function of the dimensions
/// and the pixel data alone.
pub uninterp spec fn png_encoding(width: int, height: int, data: Seq<u8>) -> Seq<u8>;

/// Relies on image::codecs::png::PngEncoder::write_image with Rgb8 color:
/// it serializes the buffer to PNG bytes, deterministically from the
/// dimensions and pixels alone. It panics unless the buffer holds exactly
/// width * height * 3 bytes, which the precondition rules out. With both
/// dimensions nonzero it cannot fail: header writing rejects only zero
/// dimensions or an invalid color/depth pair (Rgb8 is valid), and every
/// other path only writes into the Vec sink, which cannot fail.
#[verifier::external_body]
fn encode_png_rgb8(width: u32, height: u32, data: &Vec<u8>) -> (r: Result<Vec<u8>, ()>)
    requires
        data@.len() == width * height * 3,
    ensures
        width > 0 && height > 0 ==> r is Ok,
        r matches Ok(png) ==> png@ == png_encoding(width as int, height as int, data@),
{
    let mut out: Vec<u8> = Vec::new();
    let encoder = image::codecs::png::PngEncoder::new(&mut out);
    match image::ImageEncoder::write_image(
        encoder,
        data.as_slice(),
        width,
        height,
        image::ExtendedColorType::Rgb8,
    ) {
        Ok(()) => Ok(out),
        Err(_) => Err(()),
    }
}

/// Serializes a converted frame to the fixed output image format. A
/// well-formed frame has nonzero dimensions, so encoding always succeeds.
pub fn encode_frame(frame: &VideoFrame) -> (png: Vec<u8>)
    requires
        frame.wf(),
    ensures
        png@ == png_encoding(frame.width as int, frame.height as int, frame.data@),
{
    match encode_png_rgb8(frame.width, frame.height, &frame.data) {
        Ok(png) => png,
        Err(_) => vstd::pervasive::unreached(),
    }
}

} // verus!
