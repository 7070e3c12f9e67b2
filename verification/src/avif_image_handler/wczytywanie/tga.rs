//! Decoding TGA images with the `image` crate's TGA decoder, then choosing
//! the pixel layout from the decoder's color type.
use vstd::prelude::*;
use image::ImageDecoder;
use crate::avif_image_handler::raster::{
    DecodedImage, DecoderFrame, ImageError, ImageErrorKind, ImageView, Layout, checked8, from_raw8,
    outcome, lemma_pixel_count_bound,
};
use crate::text::same_text;

verus! {

/// What `image::codecs::tga::TgaDecoder` decodes from a file's bytes, or its
/// error message.
pub uninterp spec fn tga_decoded(bytes: Seq<u8>) -> Result<(u32, u32, Seq<char>, Seq<u8>), Seq<char>>;

/// Reads a TGA file with `image::codecs::tga::TgaDecoder` (`new`,
/// `dimensions`, `color_type`, `total_bytes`, `read_image`); the result is the
/// named decoding of the bytes.
#[verifier::external_body]
fn read_tga(bytes: &[u8]) -> (r: Result<DecoderFrame, String>)
    ensures
        match r {
            Ok(f) => tga_decoded(bytes@) == Ok::<_, Seq<char>>((f.width, f.height, f.color_name@, f.pixels@)),
            Err(m) => tga_decoded(bytes@) == Err::<(u32, u32, Seq<char>, Seq<u8>), _>(m@),
        },
{
    let decoder = match image::codecs::tga::TgaDecoder::new(std::io::Cursor::new(bytes)) {
        Ok(decoder) => decoder,
        Err(e) => return Err(e.to_string()),
    };
    let (width, height) = decoder.dimensions();
    let color_name = format!("{:?}", decoder.color_type());
    let mut pixels = vec![0u8; decoder.total_bytes() as usize];
    match decoder.read_image(&mut pixels) {
        Ok(()) => Ok(DecoderFrame { width, height, color_name, pixels }),
        Err(e) => Err(e.to_string()),
    }
}

/// Samples 5-5-5 pixels (two little-endian bytes, `xRRRRRGG GGGBBBBB`)
/// widened to 8-bit RGB by a shift of three.
pub open spec fn rgb555_to_rgb8(data: Seq<u8>) -> Seq<u8> {
    Seq::new((3 * (data.len() / 2)) as nat, |i: int| {
        let p = data[2 * (i / 3)] as int + 256 * data[2 * (i / 3) + 1] as int;
        let c = if i % 3 == 0 {
            (p / 1024) % 32
        } else if i % 3 == 1 {
            (p / 32) % 32
        } else {
            p % 32
        };
        (c * 8) as u8
    })
}

/// The image that a decoded TGA frame gives.
pub open spec fn tga_frame_image(width: u32, height: u32, color_name: Seq<char>, pixels: Seq<u8>)
    -> Result<ImageView, (ImageErrorKind, Seq<char>)> {
    if color_name == "L8"@ {
        checked8(Layout::Luma8, width, height, pixels, "Błąd bufora TGA L8"@)
    } else if color_name == "Rgb8"@ {
        checked8(Layout::Rgb8, width, height, pixels, "Błąd bufora TGA RGB8"@)
    } else if color_name == "Rgba8"@ {
        checked8(Layout::Rgba8, width, height, pixels, "Błąd bufora TGA RGBA8"@)
    } else if pixels.len() == width as int * height as int * 2 {
        checked8(Layout::Rgb8, width, height, rgb555_to_rgb8(pixels), "Błąd konwersji TGA 16->RGB8"@)
    } else {
        Err((ImageErrorKind::Unsupported, "Nieobsługiwany ColorType TGA: "@ + color_name))
    }
}

/// What `tga` gives for a file's bytes.
pub open spec fn tga_result(bytes: Seq<u8>) -> Result<ImageView, (ImageErrorKind, Seq<char>)> {
    match tga_decoded(bytes) {
        Ok((w, h, name, px)) => tga_frame_image(w, h, name, px),
        Err(m) => Err((ImageErrorKind::Other, m)),
    }
}

/// Widens 5-5-5 pixels to 8-bit RGB.
fn widen_rgb555(pixels: &Vec<u8>) -> (r: Vec<u8>)
    ensures
        r@ == rgb555_to_rgb8(pixels@),
{
    let n = pixels.len() / 2;
    let mut out: Vec<u8> = Vec::new();
    let mut k: usize = 0;
    while k < n
        invariant
            n == pixels@.len() / 2,
            pixels@.len() == pixels.len(),
            k <= n,
            out@ == rgb555_to_rgb8(pixels@).take(3 * k),
        decreases n - k,
    {
        let pixel: u32 = pixels[2 * k] as u32 + 256 * (pixels[2 * k + 1] as u32);
        let r = (((pixel / 1024) % 32) * 8) as u8;
        let g = (((pixel / 32) % 32) * 8) as u8;
        let b = ((pixel % 32) * 8) as u8;
        out.push(r);
        out.push(g);
        out.push(b);
        proof {
            let s = rgb555_to_rgb8(pixels@);
            assert((3 * k) / 3 == k && (3 * k + 1) / 3 == k && (3 * k + 2) / 3 == k);
            assert((3 * k) % 3 == 0 && (3 * k + 1) % 3 == 1 && (3 * k + 2) % 3 == 2);
            assert(s[3 * k] == r);
            assert(s[3 * k + 1] == g);
            assert(s[3 * k + 2] == b);
            assert(out@ =~= s.take(3 * k + 3));
        }
        k = k + 1;
    }
    assert(rgb555_to_rgb8(pixels@).take(3 * n) =~= rgb555_to_rgb8(pixels@));
    out
}

/// Turns a decoded TGA frame into an image of the layout its color type calls
/// for; 2-byte pixels of any other color type are read as 5-5-5 RGB.
pub fn tga_frame_to_image(frame: DecoderFrame) -> (r: Result<DecodedImage, ImageError>)
    ensures
        outcome(r) == tga_frame_image(frame.width, frame.height, frame.color_name@, frame.pixels@),
{
    let DecoderFrame { width, height, color_name, pixels } = frame;
    proof {
        lemma_pixel_count_bound(width, height);
    }
    if same_text(color_name.as_str(), "L8") {
        from_raw8(Layout::Luma8, width, height, pixels, "Błąd bufora TGA L8")
    } else if same_text(color_name.as_str(), "Rgb8") {
        from_raw8(Layout::Rgb8, width, height, pixels, "Błąd bufora TGA RGB8")
    } else if same_text(color_name.as_str(), "Rgba8") {
        from_raw8(Layout::Rgba8, width, height, pixels, "Błąd bufora TGA RGBA8")
    } else if (pixels.len() as u128) == (width as u128) * (height as u128) * 2 {
        let rgb8_pixels = widen_rgb555(&pixels);
        from_raw8(Layout::Rgb8, width, height, rgb8_pixels, "Błąd konwersji TGA 16->RGB8")
    } else {
        let mut message = "Nieobsługiwany ColorType TGA: ".to_owned();
        message.append(color_name.as_str());
        Err(ImageError::with_kind(ImageErrorKind::Unsupported, message))
    }
}

/// Decodes a TGA file.
pub fn tga(bajty: &Vec<u8>) -> (r: Result<DecodedImage, ImageError>)
    ensures
        outcome(r) == tga_result(bajty@),
{
    match read_tga(bajty.as_slice()) {
        Ok(frame) => tga_frame_to_image(frame),
        Err(m) => Err(ImageError::with_kind(ImageErrorKind::Other, m)),
    }
}

} // verus!
