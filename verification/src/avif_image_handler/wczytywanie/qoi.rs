//! Decoding QOI images with the `image` crate's QOI decoder.
use vstd::prelude::*;
use image::ImageDecoder;
use crate::avif_image_handler::raster::{
    DecodedImage, DecoderFrame, ImageError, ImageErrorKind, ImageView, Layout, checked8, from_raw8,
    outcome,
};
use crate::text::same_text;

verus! {

/// What `image::codecs::qoi::QoiDecoder` decodes from a file's bytes:
/// dimensions, the `Debug` name of its color type and the samples; or its
/// error message.
pub uninterp spec fn qoi_decoded(bytes: Seq<u8>) -> Result<(u32, u32, Seq<char>, Seq<u8>), Seq<char>>;

/// Reads a QOI file with `image::codecs::qoi::QoiDecoder` (`new`,
/// `dimensions`, `color_type`, `total_bytes`, `read_image`); the result is the
/// named decoding of the bytes.
#[verifier::external_body]
fn read_qoi(bytes: &[u8]) -> (r: Result<DecoderFrame, String>)
    ensures
        match r {
            Ok(f) => qoi_decoded(bytes@) == Ok::<_, Seq<char>>((f.width, f.height, f.color_name@, f.pixels@)),
            Err(m) => qoi_decoded(bytes@) == Err::<(u32, u32, Seq<char>, Seq<u8>), _>(m@),
        },
{
    let decoder = match image::codecs::qoi::QoiDecoder::new(std::io::Cursor::new(bytes)) {
        Ok(decoder) => decoder,
        Err(e) => return Err(e.to_string()),
    };
    let (width, height) = decoder.dimensions();
    let color_name = format!("{:?}", decoder.color_type());
    let mut pixels = vec![0u8; decoder.total_bytes() as usize];
    match decoder.read_image(&mut pixels) {
        Ok(()) => Ok(DecoderFrame { width, height, color_name, pixels }),
        Err(e) => Err(e.to_string()),
    }
}

/// The image that a decoded QOI frame gives: QOI holds RGB or RGBA only.
pub open spec fn qoi_frame_image(width: u32, height: u32, color_name: Seq<char>, pixels: Seq<u8>)
    -> Result<ImageView, (ImageErrorKind, Seq<char>)> {
    if color_name == "Rgb8"@ {
        checked8(Layout::Rgb8, width, height, pixels, "Błąd bufora QOI RGB8"@)
    } else if color_name == "Rgba8"@ {
        checked8(Layout::Rgba8, width, height, pixels, "Błąd bufora QOI RGBA8"@)
    } else {
        Err((ImageErrorKind::Unsupported, "Format QOI obsługuje tylko RGB8 i RGBA8, otrzymano: "@ + color_name))
    }
}

/// What `qoi` gives for a file's bytes.
pub open spec fn qoi_result(bytes: Seq<u8>) -> Result<ImageView, (ImageErrorKind, Seq<char>)> {
    match qoi_decoded(bytes) {
        Ok((w, h, name, px)) => qoi_frame_image(w, h, name, px),
        Err(m) => Err((ImageErrorKind::Other, m)),
    }
}

/// Turns a decoded QOI frame into an RGB or RGBA image.
pub fn qoi_frame_to_image(frame: DecoderFrame) -> (r: Result<DecodedImage, ImageError>)
    ensures
        outcome(r) == qoi_frame_image(frame.width, frame.height, frame.color_name@, frame.pixels@),
{
    let DecoderFrame { width, height, color_name, pixels } = frame;
    if same_text(color_name.as_str(), "Rgb8") {
        from_raw8(Layout::Rgb8, width, height, pixels, "Błąd bufora QOI RGB8")
    } else if same_text(color_name.as_str(), "Rgba8") {
        from_raw8(Layout::Rgba8, width, height, pixels, "Błąd bufora QOI RGBA8")
    } else {
        let mut message = "Format QOI obsługuje tylko RGB8 i RGBA8, otrzymano: ".to_owned();
        message.append(color_name.as_str());
        Err(ImageError::with_kind(ImageErrorKind::Unsupported, message))
    }
}

/// Decodes a QOI file.
pub fn qoi(bajty: &Vec<u8>) -> (r: Result<DecodedImage, ImageError>)
    ensures
        outcome(r) == qoi_result(bajty@),
{
    match read_qoi(bajty.as_slice()) {
        Ok(frame) => qoi_frame_to_image(frame),
        Err(m) => Err(ImageError::with_kind(ImageErrorKind::Other, m)),
    }
}

} // verus!
