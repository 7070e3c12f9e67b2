//! Decoding WebP images: libwebp first, the `image` crate's decoder where
//! libwebp gives nothing (as for an animation).
use vstd::prelude::*;
use crate::avif_image_handler::raster::{
    DecodedImage, DecoderFrame, DecoderFrame16, ForeignRead, ForeignReadView, ImageError, ImageErrorKind, ImageView,
    Layout, checked8, foreign_view, frame8_image, frame8_to_image, frame16_image, frame16_to_image, from_raw8, outcome,
};

verus! {

/// What `webp::Decoder::decode` gives for a file's bytes: width, height,
/// whether the samples carry alpha (RGBA, else RGB), and the samples.
pub uninterp spec fn webp_decoded(bytes: Seq<u8>) -> Option<(u32, u32, bool, Seq<u8>)>;

/// `webp::Decoder::new(bytes).decode()`, taken apart.
#[verifier::external_body]
fn read_webp(bytes: &[u8]) -> (r: Option<(u32, u32, bool, Vec<u8>)>)
    ensures
        match r {
            Some((w, h, a, px)) => webp_decoded(bytes@) == Some((w, h, a, px@)),
            None => webp_decoded(bytes@) is None,
        },
{
    match webp::Decoder::new(bytes).decode() {
        Some(img) => Some((img.width(), img.height(), img.is_alpha(), img.to_vec())),
        None => None,
    }
}

/// What `image::load_from_memory_with_format(bytes, ImageFormat::WebP)` gives.
pub uninterp spec fn webp_image_decoded(bytes: Seq<u8>) -> ForeignReadView;

/// `image::load_from_memory_with_format` for WebP; its 8-bit and 16-bit
/// images are moved into the library's buffers, and an image of float
/// samples is reported by its color type.
#[verifier::external_body]
fn read_webp_with_image(bytes: &[u8]) -> (r: ForeignRead)
    ensures
        foreign_view(r) == webp_image_decoded(bytes@),
{
    let img = match image::load_from_memory_with_format(bytes, image::ImageFormat::WebP) {
        Ok(img) => img,
        Err(e) => return ForeignRead::Failed(e.to_string()),
    };
    let (width, height, color_name) = (img.width(), img.height(), format!("{:?}", img.color()));
    match (img.as_flat_samples_u8(), img.as_flat_samples_u16()) {
        (Some(f), _) => ForeignRead::Frame(DecoderFrame { width, height, color_name, pixels: f.samples.to_vec() }),
        (_, Some(f)) => ForeignRead::Frame16(DecoderFrame16 { width, height, color_name, words: f.samples.to_vec() }),
        _ => ForeignRead::Layout(color_name),
    }
}

/// The image a frame from libwebp makes: RGBA or RGB.
pub open spec fn webp_frame_image(width: u32, height: u32, alpha: bool, pixels: Seq<u8>)
    -> Result<ImageView, (ImageErrorKind, Seq<char>)> {
    if alpha {
        checked8(Layout::Rgba8, width, height, pixels, "Błąd bufora WebP RGBA8"@)
    } else {
        checked8(Layout::Rgb8, width, height, pixels, "Błąd bufora WebP RGB8"@)
    }
}

/// What the `image` crate's decoder gives, as the outcome of `webp`.
pub open spec fn webp_fallback_image(read: ForeignReadView) -> Result<ImageView, (ImageErrorKind, Seq<char>)> {
    match read {
        ForeignReadView::Frame(w, h, name, px) => frame8_image(w, h, name, px),
        ForeignReadView::Frame16(w, h, name, words) => frame16_image(w, h, name, words),
        ForeignReadView::Failed(m) => Err((ImageErrorKind::Other, "Błąd dekodowania klatki WebP: "@ + m)),
        ForeignReadView::Layout(n) => Err((ImageErrorKind::Unsupported, "Nieobsługiwany układ pikseli: "@ + n)),
    }
}

/// What `webp` gives for a file's bytes.
pub open spec fn webp_result(bytes: Seq<u8>) -> Result<ImageView, (ImageErrorKind, Seq<char>)> {
    match webp_decoded(bytes) {
        Some((w, h, a, px)) => webp_frame_image(w, h, a, px),
        None => webp_fallback_image(webp_image_decoded(bytes)),
    }
}

/// Turns what the `image` crate's decoder gave into the outcome of `webp`.
pub fn webp_fallback(read: ForeignRead) -> (r: Result<DecodedImage, ImageError>)
    ensures
        outcome(r) == webp_fallback_image(foreign_view(read)),
{
    match read {
        ForeignRead::Frame(frame) => frame8_to_image(frame),
        ForeignRead::Frame16(frame) => frame16_to_image(frame),
        ForeignRead::Failed(m) => {
            let mut message = "Błąd dekodowania klatki WebP: ".to_owned();
            message.append(m.as_str());
            Err(ImageError::with_kind(ImageErrorKind::Other, message))
        },
        ForeignRead::Layout(n) => {
            let mut message = "Nieobsługiwany układ pikseli: ".to_owned();
            message.append(n.as_str());
            Err(ImageError::with_kind(ImageErrorKind::Unsupported, message))
        },
    }
}

/// Decodes a WebP file.
pub fn webp(bajty: &Vec<u8>) -> (r: Result<DecodedImage, ImageError>)
    ensures
        outcome(r) == webp_result(bajty@),
{
    match read_webp(bajty.as_slice()) {
        Some((width, height, alpha, pixels)) => {
            if alpha {
                from_raw8(Layout::Rgba8, width, height, pixels, "Błąd bufora WebP RGBA8")
            } else {
                from_raw8(Layout::Rgb8, width, height, pixels, "Błąd bufora WebP RGB8")
            }
        },
        None => webp_fallback(read_webp_with_image(bajty.as_slice())),
    }
}

} // verus!
