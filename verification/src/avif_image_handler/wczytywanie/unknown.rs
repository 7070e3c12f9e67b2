//! Decoding an image whose signature was not recognised: the `image` crate
//! guesses the format from its leading bytes.
use vstd::prelude::*;
use std::io::Cursor;
use crate::avif_image_handler::raster::{
    DecodedImage, DecoderFrame, DecoderFrame16, ForeignRead, ForeignReadView, ImageError, ImageErrorKind, ImageView,
    foreign_view, frame8_image, frame8_to_image, frame16_image, frame16_to_image, outcome,
};

verus! {

/// What `image::ImageReader::new(..).with_guessed_format()` says of a
/// file's bytes: whether a format has their signature, or why they could
/// not be read.
pub uninterp spec fn guessed_format(bytes: Seq<u8>) -> Result<bool, Seq<char>>;

/// `with_guessed_format()`, then whether `format()` found one.
#[verifier::external_body]
fn guess_format(bytes: &[u8]) -> (r: Result<bool, String>)
    ensures
        match r {
            Ok(found) => guessed_format(bytes@) == Ok::<bool, Seq<char>>(found),
            Err(m) => guessed_format(bytes@) == Err::<bool, Seq<char>>(m@),
        },
{
    match image::ImageReader::new(Cursor::new(bytes)).with_guessed_format() {
        Ok(reader) => Ok(reader.format().is_some()),
        Err(e) => Err(e.to_string()),
    }
}

/// What `image::ImageReader` decodes from a file's bytes in the format it
/// guesses.
pub uninterp spec fn guessed_decoding(bytes: Seq<u8>) -> ForeignReadView;

/// `with_guessed_format()` and `decode()`; 8-bit and 16-bit images are moved
/// into the library's buffers, and an image of float samples is reported by
/// its color type (the formats built here decode none).
#[verifier::external_body]
fn decode_guessed(bytes: &[u8]) -> (r: ForeignRead)
    ensures
        foreign_view(r) == guessed_decoding(bytes@),
{
    let read = image::ImageReader::new(Cursor::new(bytes)).with_guessed_format().map_err(image::ImageError::IoError);
    let img = match read.and_then(image::ImageReader::decode) {
        Ok(img) => img,
        Err(e) => return ForeignRead::Failed(e.to_string()),
    };
    let (width, height, color_name) = (img.width(), img.height(), format!("{:?}", img.color()));
    match (img.as_flat_samples_u8(), img.as_flat_samples_u16()) {
        (Some(f), _) => ForeignRead::Frame(DecoderFrame { width, height, color_name, pixels: f.samples.to_vec() }),
        (_, Some(f)) => ForeignRead::Frame16(DecoderFrame16 { width, height, color_name, words: f.samples.to_vec() }),
        _ => ForeignRead::Layout(color_name),
    }
}

/// The outcome of `unknown`: a signature that cannot be read is invalid
/// data, one that no format has is unsupported; else what decoding gave.
pub open spec fn unknown_image(guess: Result<bool, Seq<char>>, read: ForeignReadView)
    -> Result<ImageView, (ImageErrorKind, Seq<char>)> {
    match guess {
        Err(m) => Err((ImageErrorKind::InvalidData, m)),
        Ok(false) => Err((ImageErrorKind::Unsupported, "Nie rozpoznano formatu pliku (brak znanej sygnatury)"@)),
        Ok(true) => match read {
            ForeignReadView::Failed(m) => Err((ImageErrorKind::Other, m)),
            ForeignReadView::Layout(n) => Err((ImageErrorKind::Unsupported, "Nieobsługiwany układ pikseli: "@ + n)),
            ForeignReadView::Frame(w, h, name, px) => frame8_image(w, h, name, px),
            ForeignReadView::Frame16(w, h, name, words) => frame16_image(w, h, name, words),
        },
    }
}

/// Turns what decoding gave into the outcome of `unknown`.
pub fn unknown_read(read: ForeignRead) -> (r: Result<DecodedImage, ImageError>)
    ensures
        outcome(r) == unknown_image(Ok(true), foreign_view(read)),
{
    match read {
        ForeignRead::Failed(m) => Err(ImageError::with_kind(ImageErrorKind::Other, m)),
        ForeignRead::Layout(n) => {
            let mut message = "Nieobsługiwany układ pikseli: ".to_owned();
            message.append(n.as_str());
            Err(ImageError::with_kind(ImageErrorKind::Unsupported, message))
        },
        ForeignRead::Frame(frame) => frame8_to_image(frame),
        ForeignRead::Frame16(frame) => frame16_to_image(frame),
    }
}

/// Decodes a file of a format that its signature did not give away.
pub fn unknown(bajty: &Vec<u8>) -> (r: Result<DecodedImage, ImageError>)
    ensures
        outcome(r) == unknown_image(guessed_format(bajty@), guessed_decoding(bajty@)),
{
    match guess_format(bajty.as_slice()) {
        Err(m) => Err(ImageError::with_kind(ImageErrorKind::InvalidData, m)),
        Ok(false) => Err(ImageError::with_kind(
            ImageErrorKind::Unsupported,
            "Nie rozpoznano formatu pliku (brak znanej sygnatury)".to_owned(),
        )),
        Ok(true) => unknown_read(decode_guessed(bajty.as_slice())),
    }
}

} // verus!
