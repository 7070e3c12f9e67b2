//! Decoding PNG images with the `png` crate, then choosing the pixel layout
//! from the frame's color type and bit depth.
use vstd::prelude::*;
use crate::avif_image_handler::raster::{
    DecodedImage, ImageError, ImageErrorKind, ImageView, Layout, bytes_to_u16, be_words, checked8,
    checked16, from_raw8, from_raw16, lemma_pixel_count_bound, outcome,
};
use crate::text::{decimal, push_decimal};

verus! {

/// A decoded PNG frame. `color_type` and `bit_depth` hold the numbers that
/// the PNG format gives them (color: 0 grayscale, 2 RGB, 3 indexed,
/// 4 grayscale+alpha, 6 RGBA; depth: 1, 2, 4, 8 or 16).
pub struct PngFrame {
    pub width: u32,
    pub height: u32,
    pub color_type: u8,
    pub bit_depth: u8,
    pub pixels: Vec<u8>,
}

/// What the `png` crate decodes from a file's bytes: the first frame's width,
/// height, color type, bit depth and samples; or its error message, or `None`
/// when the frame would not fit in memory.
pub uninterp spec fn png_decoded(bytes: Seq<u8>) -> Result<(u32, u32, u8, u8, Seq<u8>), Option<Seq<char>>>;

/// Samples per pixel of a PNG color type, as the file stores them.
pub open spec fn png_samples(color_type: u8) -> int {
    if color_type == 2 {
        3
    } else if color_type == 4 {
        2
    } else if color_type == 6 {
        4
    } else {
        1
    }
}

/// Bytes enough for a frame of 8-bit or 16-bit samples: each of its rows,
/// one after another.
pub open spec fn png_buffer_holds_frame(width: u32, height: u32, color_type: u8, bit_depth: u8, len: int) -> bool {
    (bit_depth == 8 || bit_depth == 16)
        ==> len >= width as int * height as int * png_samples(color_type) * (bit_depth as int / 8)
}

/// Reads the first frame of a PNG file with `png::Decoder` (`read_info`,
/// `output_buffer_size`, `next_frame`). The result is the named decoding of
/// the bytes; the crate refuses zero widths and heights, so a frame that
/// comes back has neither. The decoder transforms nothing, so the frame has
/// the file's color type and bit depth, and its buffer, `output_buffer_size`
/// long, holds every row of the image, whose size bounds the frame's.
#[verifier::external_body]
fn read_png_frame(bytes: &[u8]) -> (r: Result<PngFrame, Option<String>>)
    ensures
        match r {
            Ok(f) => png_decoded(bytes@) == Ok::<_, Option<Seq<char>>>((f.width, f.height, f.color_type, f.bit_depth, f.pixels@))
                && f.width > 0 && f.height > 0
                && png_buffer_holds_frame(f.width, f.height, f.color_type, f.bit_depth, f.pixels@.len() as int),
            Err(Some(m)) => png_decoded(bytes@) == Err::<(u32, u32, u8, u8, Seq<u8>), _>(Some(m@)),
            Err(None) => png_decoded(bytes@) == Err::<(u32, u32, u8, u8, Seq<u8>), _>(None::<Seq<char>>),
        },
{
    let mut reader = match ::png::Decoder::new(std::io::Cursor::new(bytes)).read_info() {
        Ok(reader) => reader,
        Err(e) => return Err(Some(e.to_string())),
    };
    let mut pixels = match reader.output_buffer_size() { Some(n) => vec![0u8; n], None => return Err(None) };
    match reader.next_frame(&mut pixels) {
        Ok(i) => Ok(PngFrame { width: i.width, height: i.height, color_type: i.color_type as u8, bit_depth: i.bit_depth as u8, pixels }),
        Err(e) => Err(Some(e.to_string())),
    }
}

/// The image that a decoded frame gives.
pub open spec fn png_frame_image(width: u32, height: u32, color_type: u8, bit_depth: u8, pixels: Seq<u8>)
    -> Result<ImageView, (ImageErrorKind, Seq<char>)> {
    if color_type == 2 && bit_depth == 8 {
        checked8(Layout::Rgb8, width, height, pixels, "Błąd bufora PNG RGB8"@)
    } else if color_type == 3 && bit_depth == 8 {
        let bpp = pixels.len() as int / (width as int * height as int);
        if bpp == 1 {
            checked8(Layout::Luma8, width, height, pixels, "Błąd bufora PNG L8 z palety"@)
        } else if bpp == 3 {
            checked8(Layout::Rgb8, width, height, pixels, "Błąd bufora PNG RGB8 z palety"@)
        } else if bpp == 4 {
            checked8(Layout::Rgba8, width, height, pixels, "Błąd bufora PNG RGBA8 z palety"@)
        } else {
            Err((ImageErrorKind::Other, "Nietypowy bpp ("@ + decimal(bpp as nat) + ") dla Indexed"@))
        }
    } else if color_type == 6 && bit_depth == 8 {
        checked8(Layout::Rgba8, width, height, pixels, "Błąd bufora PNG RGBA8"@)
    } else if color_type == 2 && bit_depth == 16 {
        checked16(Layout::Rgb16, width, height, be_words(pixels), "Błąd bufora PNG RGB16"@)
    } else if color_type == 6 && bit_depth == 16 {
        checked16(Layout::Rgba16, width, height, be_words(pixels), "Błąd bufora PNG RGBA16"@)
    } else if color_type == 0 && bit_depth == 8 {
        checked8(Layout::Luma8, width, height, pixels, "Błąd bufora PNG L8"@)
    } else if color_type == 4 && bit_depth == 8 {
        checked8(Layout::LumaA8, width, height, pixels, "Błąd bufora PNG L8"@)
    } else if color_type == 0 && bit_depth == 16 {
        checked16(Layout::Luma16, width, height, be_words(pixels), "Błąd bufora PNG L16"@)
    } else if color_type == 4 && bit_depth == 16 {
        checked16(Layout::LumaA16, width, height, be_words(pixels), "Błąd bufora PNG L16"@)
    } else {
        Err((ImageErrorKind::Unsupported, "Format PNG nieobsługiwany"@))
    }
}

/// What `png` gives for a file's bytes.
pub open spec fn png_result(bytes: Seq<u8>) -> Result<ImageView, (ImageErrorKind, Seq<char>)> {
    match png_decoded(bytes) {
        Ok((w, h, c, d, px)) => png_frame_image(w, h, c, d, px),
        Err(Some(m)) => Err((ImageErrorKind::Other, m)),
        Err(None) => Err((ImageErrorKind::Other, "nie ma pikseli w png"@)),
    }
}

/// Turns a decoded PNG frame into an image of the layout its color type and
/// bit depth call for.
pub fn png_frame_to_image(frame: PngFrame) -> (r: Result<DecodedImage, ImageError>)
    requires
        frame.width > 0,
        frame.height > 0,
    ensures
        outcome(r) == png_frame_image(frame.width, frame.height, frame.color_type, frame.bit_depth,
            frame.pixels@),
{
    let PngFrame { width, height, color_type, bit_depth, pixels } = frame;
    if color_type == 2 && bit_depth == 8 {
        from_raw8(Layout::Rgb8, width, height, pixels, "Błąd bufora PNG RGB8")
    } else if color_type == 3 && bit_depth == 8 {
        proof {
            lemma_pixel_count_bound(width, height);
            assert(width as int * height as int > 0) by (nonlinear_arith)
                requires
                    width > 0,
                    height > 0,
            ;
        }
        let area: u64 = (width as u64) * (height as u64);
        let bpp: u64 = (pixels.len() as u64) / area;
        if bpp == 1 {
            from_raw8(Layout::Luma8, width, height, pixels, "Błąd bufora PNG L8 z palety")
        } else if bpp == 3 {
            from_raw8(Layout::Rgb8, width, height, pixels, "Błąd bufora PNG RGB8 z palety")
        } else if bpp == 4 {
            from_raw8(Layout::Rgba8, width, height, pixels, "Błąd bufora PNG RGBA8 z palety")
        } else {
            let mut message = "Nietypowy bpp (".to_owned();
            push_decimal(&mut message, bpp);
            message.append(") dla Indexed");
            Err(ImageError::with_kind(ImageErrorKind::Other, message))
        }
    } else if color_type == 6 && bit_depth == 8 {
        from_raw8(Layout::Rgba8, width, height, pixels, "Błąd bufora PNG RGBA8")
    } else if color_type == 2 && bit_depth == 16 {
        from_raw16(Layout::Rgb16, width, height, bytes_to_u16(pixels.as_slice()), "Błąd bufora PNG RGB16")
    } else if color_type == 6 && bit_depth == 16 {
        from_raw16(Layout::Rgba16, width, height, bytes_to_u16(pixels.as_slice()), "Błąd bufora PNG RGBA16")
    } else if color_type == 0 && bit_depth == 8 {
        from_raw8(Layout::Luma8, width, height, pixels, "Błąd bufora PNG L8")
    } else if color_type == 4 && bit_depth == 8 {
        from_raw8(Layout::LumaA8, width, height, pixels, "Błąd bufora PNG L8")
    } else if color_type == 0 && bit_depth == 16 {
        from_raw16(Layout::Luma16, width, height, bytes_to_u16(pixels.as_slice()), "Błąd bufora PNG L16")
    } else if color_type == 4 && bit_depth == 16 {
        from_raw16(Layout::LumaA16, width, height, bytes_to_u16(pixels.as_slice()), "Błąd bufora PNG L16")
    } else {
        Err(ImageError::with_kind(ImageErrorKind::Unsupported, "Format PNG nieobsługiwany".to_owned()))
    }
}

/// A layout that a PNG frame is read into as it is: grayscale, RGB,
/// grayscale with alpha or RGBA, of 8 or 16 bits.
pub open spec fn png_direct_layout(color_type: u8, bit_depth: u8) -> bool {
    (bit_depth == 8 || bit_depth == 16)
        && (color_type == 0 || color_type == 2 || color_type == 4 || color_type == 6)
}

/// A buffer that holds a frame fills the image of a direct layout.
proof fn lemma_png_buffer_fits(width: u32, height: u32, color_type: u8, bit_depth: u8, len: int)
    requires
        png_direct_layout(color_type, bit_depth),
        png_buffer_holds_frame(width, height, color_type, bit_depth, len),
    ensures
        bit_depth == 8 ==> png_samples(color_type) * (width as int * height as int) <= len,
        bit_depth == 16 ==> png_samples(color_type) * (width as int * height as int) <= len / 2,
{
    let s = png_samples(color_type);
    let w = width as int;
    let h = height as int;
    assert(w * h * s == s * (w * h)) by (nonlinear_arith);
    let k = bit_depth as int / 8;
    if bit_depth == 8 {
        assert(k == 1);
        assert(w * h * s * k == w * h * s) by (nonlinear_arith)
            requires
                k == 1,
        ;
    } else {
        assert(k == 2);
        assert(w * h * s * k == (w * h * s) * 2) by (nonlinear_arith)
            requires
                k == 2,
        ;
        assert(s * (w * h) <= len / 2);
    }
}

/// Decodes a PNG file. A file that the `png` crate decodes into a frame of a
/// direct layout gives an image.
pub fn png(bajty: &Vec<u8>) -> (r: Result<DecodedImage, ImageError>)
    ensures
        outcome(r) == png_result(bajty@),
        match png_decoded(bajty@) {
            Ok((w, h, c, d, px)) => png_direct_layout(c, d) ==> r is Ok,
            Err(_) => true,
        },
{
    match read_png_frame(bajty.as_slice()) {
        Ok(frame) => {
            proof {
                if png_direct_layout(frame.color_type, frame.bit_depth) {
                    lemma_png_buffer_fits(frame.width, frame.height, frame.color_type, frame.bit_depth,
                        frame.pixels@.len() as int);
                }
            }
            png_frame_to_image(frame)
        },
        Err(Some(m)) => Err(ImageError::with_kind(ImageErrorKind::Other, m)),
        Err(None) => Err(ImageError::other("nie ma pikseli w png")),
    }
}

} // verus!
