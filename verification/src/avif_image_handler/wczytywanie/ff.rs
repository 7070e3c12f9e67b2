//! Decoding Farbfeld images: a "farbfeld" magic, big-endian width and height,
//! then four 16-bit big-endian samples per pixel, kept at 8 bits (the high byte).
use vstd::prelude::*;
use crate::avif_image_handler::raster::{
    Buffer8, DecodedImage, ImageError, ImageErrorKind, ImageView, Layout, buffer_fits, image8,
    lemma_pixel_count_bound, outcome,
};

verus! {

/// "farbfeld"
pub open spec fn farbfeld_magic() -> Seq<u8> {
    seq![0x66u8, 0x61u8, 0x72u8, 0x62u8, 0x66u8, 0x65u8, 0x6Cu8, 0x64u8]
}

/// The big-endian 32-bit number in `b[at..at + 4]`.
pub open spec fn be_u32_at(b: Seq<u8>, at: int) -> int {
    b[at] as int * 0x100_0000 + b[at + 1] as int * 0x1_0000 + b[at + 2] as int * 0x100 + b[at + 3] as int
}

/// The header's width and height.
pub open spec fn ff_width(b: Seq<u8>) -> u32 {
    be_u32_at(b, 8) as u32
}

pub open spec fn ff_height(b: Seq<u8>) -> u32 {
    be_u32_at(b, 12) as u32
}

/// The number of bytes that the header promises.
pub open spec fn ff_expected_len(b: Seq<u8>) -> int {
    16 + ff_width(b) as int * ff_height(b) as int * 8
}

/// The 8-bit RGBA samples: the high byte of each 16-bit sample.
pub open spec fn ff_samples(b: Seq<u8>, pixels: int) -> Seq<u8> {
    Seq::new((4 * pixels) as nat, |i: int| b[16 + 8 * (i / 4) + 2 * (i % 4)])
}

/// What decoding a Farbfeld file gives.
pub open spec fn ff_result_ok(b: Seq<u8>, img: DecodedImage) -> bool {
    &&& img matches DecodedImage::Rgba8(buf)
    &&& buf.width == ff_width(b)
    &&& buf.height == ff_height(b)
    &&& buf.data@ == ff_samples(b, ff_width(b) as int * ff_height(b) as int)
}

/// What `ff` gives for a file's bytes.
pub open spec fn ff_result(b: Seq<u8>) -> Result<ImageView, (ImageErrorKind, Seq<char>)> {
    if !ff_has_header(b) {
        Err((ImageErrorKind::Other, "To nie jest poprawny plik Farbfeld"@))
    } else if b.len() < ff_expected_len(b) {
        Err((ImageErrorKind::Other, "Plik Farbfeld jest ucięty"@))
    } else {
        Ok(image8(Layout::Rgba8, ff_width(b), ff_height(b), ff_samples(b, ff_width(b) as int * ff_height(b) as int)))
    }
}

/// Whether the file starts with a full Farbfeld header.
pub open spec fn ff_has_header(b: Seq<u8>) -> bool {
    b.len() >= 16 && b.subrange(0, 8) == farbfeld_magic()
}

fn read_be_u32(b: &[u8], at: usize) -> (r: u32)
    requires
        at + 4 <= b@.len(),
    ensures
        r as int == be_u32_at(b@, at as int),
{
    let r = (b[at] as u32) * 0x100_0000 + (b[at + 1] as u32) * 0x1_0000 + (b[at + 2] as u32) * 0x100
        + (b[at + 3] as u32);
    r
}

/// Decodes a Farbfeld image into 8-bit RGBA.
pub fn ff(bajty: &[u8]) -> (r: Result<DecodedImage, ImageError>)
    ensures
        match r {
            Ok(img) => ff_has_header(bajty@) && bajty@.len() >= ff_expected_len(bajty@)
                && ff_result_ok(bajty@, img),
            Err(e) => e.kind == ImageErrorKind::Other && if !ff_has_header(bajty@) {
                e.message@ == "To nie jest poprawny plik Farbfeld"@
            } else {
                bajty@.len() < ff_expected_len(bajty@) && e.message@ == "Plik Farbfeld jest ucięty"@
            },
        },
        outcome(r) == ff_result(bajty@),
{
    let magic: [u8; 8] = [0x66, 0x61, 0x72, 0x62, 0x66, 0x65, 0x6C, 0x64];
    let mut header_ok = bajty.len() >= 16;
    if header_ok {
        let mut k: usize = 0;
        while k < 8
            invariant
                bajty@.len() >= 16,
                k <= 8,
                magic@ == farbfeld_magic(),
                header_ok == forall|m: int| 0 <= m < k ==> bajty@[m] == farbfeld_magic()[m],
            decreases 8 - k,
        {
            if bajty[k] != magic[k] {
                header_ok = false;
            }
            k = k + 1;
        }
        proof {
            if header_ok {
                assert(bajty@.subrange(0, 8) =~= farbfeld_magic());
            } else {
                let m = choose|m: int| 0 <= m < 8 && bajty@[m] != farbfeld_magic()[m];
                assert(bajty@.subrange(0, 8)[m] == bajty@[m]);
            }
        }
    }
    if !header_ok {
        return Err(ImageError::other("To nie jest poprawny plik Farbfeld"));
    }
    let width = read_be_u32(bajty, 8);
    let height = read_be_u32(bajty, 12);
    proof {
        lemma_pixel_count_bound(width, height);
    }
    let pixels_wide: u128 = (width as u128) * (height as u128);
    let expected_wide: u128 = 16 + pixels_wide * 8;
    assert(pixels_wide == width as int * height as int);
    if (bajty.len() as u128) < expected_wide {
        return Err(ImageError::other("Plik Farbfeld jest ucięty"));
    }
    let pixels: usize = pixels_wide as usize;
    let mut rgba8_pixels: Vec<u8> = Vec::new();
    let mut p: usize = 0;
    while p < pixels
        invariant
            pixels == width as int * height as int,
            16 + 8 * pixels <= bajty@.len(),
            bajty@.len() == bajty.len(),
            p <= pixels,
            rgba8_pixels@ == ff_samples(bajty@, pixels as int).take(4 * p),
        decreases pixels - p,
    {
        let base = 16 + 8 * p;
        let ghost before = rgba8_pixels@;
        rgba8_pixels.push(bajty[base]);
        rgba8_pixels.push(bajty[base + 2]);
        rgba8_pixels.push(bajty[base + 4]);
        rgba8_pixels.push(bajty[base + 6]);
        proof {
            let s = ff_samples(bajty@, pixels as int);
            assert(s[4 * p + 0] == bajty@[base as int]);
            assert(s[4 * p + 1] == bajty@[base + 2]);
            assert(s[4 * p + 2] == bajty@[base + 4]);
            assert(s[4 * p + 3] == bajty@[base + 6]);
            assert(rgba8_pixels@ =~= s.take(4 * p + 4));
        }
        p = p + 1;
    }
    assert(ff_samples(bajty@, pixels as int).take(4 * pixels) =~= ff_samples(bajty@, pixels as int));
    if !buffer_fits(width, height, 4, rgba8_pixels.len()) {
        return Err(ImageError::other("Błąd tworzenia bufora RGBA8 z Farbfeld"));
    }
    Ok(DecodedImage::Rgba8(Buffer8 { width, height, data: rgba8_pixels }))
}

} // verus!
