//! Decoding JPEG images with the `jpeg-decoder` crate.
use vstd::prelude::*;
use crate::avif_image_handler::raster::{
    DecodedImage, ImageError, ImageErrorKind, ImageView, Layout, be_words, bytes_to_u16, checked8,
    checked16, from_raw8, from_raw16, outcome,
};
use crate::text::same_text;

verus! {

/// The image information that `jpeg_decoder::Decoder::info` gives after
/// decoding: width, height, and the `Debug` name of the pixel format.
pub struct JpegInfo {
    pub width: u16,
    pub height: u16,
    pub format_name: String,
}

/// What `jpeg_decoder` decodes from a file's bytes: the samples and, if
/// present, the image information; or its error message.
pub uninterp spec fn jpeg_decoded(bytes: Seq<u8>) -> Result<(Seq<u8>, Option<(u16, u16, Seq<char>)>), Seq<char>>;

/// The `Debug` names of `jpeg_decoder::PixelFormat`, whose four variants
/// these are.
pub open spec fn is_jpeg_format_name(name: Seq<char>) -> bool {
    name == "L8"@ || name == "L16"@ || name == "RGB24"@ || name == "CMYK32"@
}

/// Decodes a JPEG file with `jpeg_decoder::Decoder` (`new`, `decode`,
/// `info`); the result is the named decoding of the bytes. The pixel format
/// is one of the crate's four.
#[verifier::external_body]
fn read_jpeg(bytes: &[u8]) -> (r: Result<(Vec<u8>, Option<JpegInfo>), String>)
    ensures
        match r {
            Ok((px, None)) => jpeg_decoded(bytes@) == Ok::<_, Seq<char>>((px@, None::<(u16, u16, Seq<char>)>)),
            Ok((px, Some(i))) => jpeg_decoded(bytes@) == Ok::<_, Seq<char>>((px@, Some((i.width, i.height, i.format_name@))))
                && is_jpeg_format_name(i.format_name@),
            Err(m) => jpeg_decoded(bytes@) == Err::<(Seq<u8>, Option<(u16, u16, Seq<char>)>), _>(m@),
        },
{
    let mut decoder = jpeg_decoder::Decoder::new(std::io::Cursor::new(bytes));
    let pixels = match decoder.decode() {
        Ok(pixels) => pixels,
        Err(e) => return Err(e.to_string()),
    };
    let info = match decoder.info() {
        Some(i) => Some(JpegInfo { width: i.width, height: i.height, format_name: format!("{:?}", i.pixel_format) }),
        None => None,
    };
    Ok((pixels, info))
}

/// One RGB sample from a CMYK pair of ink and black: `(255 - v)(255 - k) / 255`
/// rounded to the nearest integer, which is what `255 (1 - v/255)(1 - k/255)`
/// rounds to (the exact value is never halfway, and single precision stays
/// far closer to it than the distance to halfway).
pub open spec fn cmyk_channel(v: u8, k: u8) -> u8 {
    (((255 - v) * (255 - k) + 127) / 255) as u8
}

/// CMYK samples, four to a pixel, as RGB samples, three to a pixel; a
/// trailing incomplete pixel is dropped.
pub open spec fn cmyk_to_rgb(data: Seq<u8>) -> Seq<u8> {
    Seq::new((3 * (data.len() / 4)) as nat, |i: int| cmyk_channel(data[4 * (i / 3) + i % 3], data[4 * (i / 3) + 3]))
}

fn cmyk_sample(v: u8, black: u32) -> (r: u8)
    requires
        black <= 255,
    ensures
        r as int == ((255 - v) * black + 127) / 255,
{
    let ink: u32 = 255 - v as u32;
    assert(ink * black <= 255 * 255) by (nonlinear_arith)
        requires
            ink <= 255,
            black <= 255,
    ;
    ((ink * black + 127) / 255) as u8
}

/// Turns CMYK samples into RGB samples.
fn cmyk_do_rgb(pixels: &Vec<u8>) -> (r: Vec<u8>)
    ensures
        r@ == cmyk_to_rgb(pixels@),
{
    let n = pixels.len() / 4;
    let mut out: Vec<u8> = Vec::new();
    let mut k: usize = 0;
    while k < n
        invariant
            n == pixels@.len() / 4,
            pixels@.len() == pixels.len(),
            k <= n,
            out@ == cmyk_to_rgb(pixels@).take(3 * k),
        decreases n - k,
    {
        let black: u32 = 255 - pixels[4 * k + 3] as u32;
        let r = cmyk_sample(pixels[4 * k], black);
        let g = cmyk_sample(pixels[4 * k + 1], black);
        let b = cmyk_sample(pixels[4 * k + 2], black);
        out.push(r);
        out.push(g);
        out.push(b);
        proof {
            let s = cmyk_to_rgb(pixels@);
            assert((3 * k) / 3 == k && (3 * k + 1) / 3 == k && (3 * k + 2) / 3 == k);
            assert((3 * k) % 3 == 0 && (3 * k + 1) % 3 == 1 && (3 * k + 2) % 3 == 2);
            assert(s[3 * k] == r);
            assert(s[3 * k + 1] == g);
            assert(s[3 * k + 2] == b);
            assert(out@ =~= s.take(3 * k + 3));
        }
        k = k + 1;
    }
    assert(cmyk_to_rgb(pixels@).take(3 * n) =~= cmyk_to_rgb(pixels@));
    out
}

/// The image that decoded JPEG samples give; CMYK samples are turned into RGB.
pub open spec fn jpeg_frame_image(width: u16, height: u16, format_name: Seq<char>, pixels: Seq<u8>)
    -> Result<ImageView, (ImageErrorKind, Seq<char>)> {
    if format_name == "L8"@ {
        checked8(Layout::Luma8, width as u32, height as u32, pixels, "Błąd bufora L8"@)
    } else if format_name == "L16"@ {
        checked16(Layout::Luma16, width as u32, height as u32, be_words(pixels), "Błąd bufora L16"@)
    } else if format_name == "RGB24"@ {
        checked8(Layout::Rgb8, width as u32, height as u32, pixels, "Błąd bufora RGB24"@)
    } else {
        checked8(Layout::Rgb8, width as u32, height as u32, cmyk_to_rgb(pixels), "Błąd bufora RGB z CMYK"@)
    }
}

/// What `jpeg` gives for a file's bytes.
pub open spec fn jpeg_result(bytes: Seq<u8>) -> Result<ImageView, (ImageErrorKind, Seq<char>)> {
    match jpeg_decoded(bytes) {
        Ok((px, Some((w, h, name)))) => jpeg_frame_image(w, h, name, px),
        Ok((_, None)) => Err((ImageErrorKind::Other, "Brak info o pliku"@)),
        Err(m) => Err((ImageErrorKind::Other, m)),
    }
}

/// Turns decoded JPEG samples into an image of the layout its pixel format
/// calls for.
pub fn jpeg_frame_to_image(info: JpegInfo, pixels: Vec<u8>) -> (r: Result<DecodedImage, ImageError>)
    requires
        is_jpeg_format_name(info.format_name@),
    ensures
        outcome(r) == jpeg_frame_image(info.width, info.height, info.format_name@, pixels@),
{
    let width = info.width as u32;
    let height = info.height as u32;
    if same_text(info.format_name.as_str(), "L8") {
        from_raw8(Layout::Luma8, width, height, pixels, "Błąd bufora L8")
    } else if same_text(info.format_name.as_str(), "L16") {
        from_raw16(Layout::Luma16, width, height, bytes_to_u16(pixels.as_slice()), "Błąd bufora L16")
    } else if same_text(info.format_name.as_str(), "RGB24") {
        from_raw8(Layout::Rgb8, width, height, pixels, "Błąd bufora RGB24")
    } else {
        let rgb = cmyk_do_rgb(&pixels);
        from_raw8(Layout::Rgb8, width, height, rgb, "Błąd bufora RGB z CMYK")
    }
}

/// Decodes a JPEG file.
pub fn jpeg(bajty: &Vec<u8>) -> (r: Result<DecodedImage, ImageError>)
    ensures
        outcome(r) == jpeg_result(bajty@),
{
    match read_jpeg(bajty.as_slice()) {
        Ok((pixels, Some(info))) => jpeg_frame_to_image(info, pixels),
        Ok((_, None)) => Err(ImageError::other("Brak info o pliku")),
        Err(m) => Err(ImageError::with_kind(ImageErrorKind::Other, m)),
    }
}

} // verus!
