//! Loading an image file: unpacking it where its extension names a
//! compression, recognising its format from its bytes, and decoding it.
use vstd::prelude::*;
use crate::avif_image_handler::raster::{DecodedImage, ImageError, ImageErrorKind, ImageView, outcome};
use crate::avif_image_handler::wczytywanie::check_extension::{ImgExtTag, recognised_format, rozpoznaj_format};
use crate::avif_image_handler::wczytywanie::ff::{ff, ff_result};
use crate::avif_image_handler::wczytywanie::jpg::{jpeg, jpeg_result};
use crate::avif_image_handler::wczytywanie::png::{png, png_result};
use crate::avif_image_handler::wczytywanie::qoi::{qoi, qoi_result};
use crate::avif_image_handler::wczytywanie::tga::{tga, tga_result};
use crate::avif_image_handler::wczytywanie::unknown::{guessed_decoding, guessed_format, unknown, unknown_image};
use crate::avif_image_handler::wczytywanie::webp::{webp, webp_result};
use crate::text::{same_text, str_lowercase, to_lower};

verus! {

/// What zstd decompression (`zstd::stream::read::Decoder`, read to the end)
/// gives for some bytes, or its error message.
pub uninterp spec fn zstd_unpacked(data: Seq<u8>) -> Result<Seq<u8>, Seq<char>>;

/// What bzip2 decompression (`bzip2::read::BzDecoder`, read to the end)
/// gives for some bytes, or its error message.
pub uninterp spec fn bzip2_unpacked(data: Seq<u8>) -> Result<Seq<u8>, Seq<char>>;

/// What xz decompression (`xz2::read::XzDecoder`, read to the end) gives
/// for some bytes, or its error message.
pub uninterp spec fn xz_unpacked(data: Seq<u8>) -> Result<Seq<u8>, Seq<char>>;

pub open spec fn bytes_result(r: Result<Vec<u8>, String>) -> Result<Seq<u8>, Seq<char>> {
    match r {
        Ok(v) => Ok(v@),
        Err(m) => Err(m@),
    }
}

/// Unpacks zstd data with `zstd::stream::read::Decoder`.
#[verifier::external_body]
fn unpack_zstd(data: &[u8]) -> (r: Result<Vec<u8>, String>)
    ensures
        bytes_result(r) == zstd_unpacked(data@),
{
    let mut out = Vec::new();
    match zstd::stream::read::Decoder::new(data) {
        Ok(mut decoder) => match std::io::Read::read_to_end(&mut decoder, &mut out) {
            Ok(_) => Ok(out),
            Err(e) => Err(e.to_string()),
        },
        Err(e) => Err(e.to_string()),
    }
}

/// Unpacks bzip2 data with `bzip2::read::BzDecoder`.
#[verifier::external_body]
fn unpack_bzip2(data: &[u8]) -> (r: Result<Vec<u8>, String>)
    ensures
        bytes_result(r) == bzip2_unpacked(data@),
{
    let mut out = Vec::new();
    match std::io::Read::read_to_end(&mut bzip2::read::BzDecoder::new(data), &mut out) {
        Ok(_) => Ok(out),
        Err(e) => Err(e.to_string()),
    }
}

/// Unpacks xz data with `xz2::read::XzDecoder`.
#[verifier::external_body]
fn unpack_xz(data: &[u8]) -> (r: Result<Vec<u8>, String>)
    ensures
        bytes_result(r) == xz_unpacked(data@),
{
    let mut out = Vec::new();
    match std::io::Read::read_to_end(&mut xz2::read::XzDecoder::new(data), &mut out) {
        Ok(_) => Ok(out),
        Err(e) => Err(e.to_string()),
    }
}

/// The contents of a file with the given lower-case extension: "zst", "bz2"
/// and "xz" files are unpacked, any other is taken as it is.
pub open spec fn unpacked_for(ext: Seq<char>, data: Seq<u8>) -> Result<Seq<u8>, Seq<char>> {
    if ext == "zst"@ {
        zstd_unpacked(data)
    } else if ext == "bz2"@ {
        bzip2_unpacked(data)
    } else if ext == "xz"@ {
        xz_unpacked(data)
    } else {
        Ok(data)
    }
}

/// Unpacks a file by its (lower-case) extension; a failure keeps the
/// decompressor's message.
pub fn rozpakuj(rozszerzenie: &str, bajty: Vec<u8>) -> (r: Result<Vec<u8>, ImageError>)
    ensures
        match r {
            Ok(v) => unpacked_for(rozszerzenie@, bajty@) == Ok::<Seq<u8>, Seq<char>>(v@),
            Err(e) => e.kind == ImageErrorKind::Other
                && unpacked_for(rozszerzenie@, bajty@) == Err::<Seq<u8>, Seq<char>>(e.message@),
        },
{
    let unpacked = if same_text(rozszerzenie, "zst") {
        unpack_zstd(bajty.as_slice())
    } else if same_text(rozszerzenie, "bz2") {
        unpack_bzip2(bajty.as_slice())
    } else if same_text(rozszerzenie, "xz") {
        unpack_xz(bajty.as_slice())
    } else {
        return Ok(bajty);
    };
    match unpacked {
        Ok(v) => Ok(v),
        Err(m) => Err(ImageError::with_kind(ImageErrorKind::Other, m)),
    }
}

/// A loaded file: a decoded image, or the bytes of an AVIF or OpenEXR file,
/// which are decoded outside the library (with libheif, and in floating
/// point).
pub enum Wczytany {
    Obraz(DecodedImage),
    Avif(Vec<u8>),
    Exr(Vec<u8>),
}

/// A loaded file, by views.
pub enum WczytanyView {
    Obraz(ImageView),
    Avif(Seq<u8>),
    Exr(Seq<u8>),
}

pub open spec fn wczytany_view(w: Wczytany) -> WczytanyView {
    match w {
        Wczytany::Obraz(img) => WczytanyView::Obraz(img@),
        Wczytany::Avif(b) => WczytanyView::Avif(b@),
        Wczytany::Exr(b) => WczytanyView::Exr(b@),
    }
}

pub open spec fn loaded(r: Result<Wczytany, ImageError>) -> Result<WczytanyView, (ImageErrorKind, Seq<char>)> {
    match r {
        Ok(w) => Ok(wczytany_view(w)),
        Err(e) => Err((e.kind, e.message@)),
    }
}

pub open spec fn as_loaded(r: Result<ImageView, (ImageErrorKind, Seq<char>)>) -> Result<WczytanyView, (ImageErrorKind, Seq<char>)> {
    match r {
        Ok(img) => Ok(WczytanyView::Obraz(img)),
        Err(e) => Err(e),
    }
}

/// What decoding gives for a file's contents, by the format its bytes show.
pub open spec fn decoded(bytes: Seq<u8>) -> Result<WczytanyView, (ImageErrorKind, Seq<char>)> {
    match recognised_format(bytes) {
        ImgExtTag::Avif => Ok(WczytanyView::Avif(bytes)),
        ImgExtTag::Exr => Ok(WczytanyView::Exr(bytes)),
        ImgExtTag::Jpg => as_loaded(jpeg_result(bytes)),
        ImgExtTag::Png => as_loaded(png_result(bytes)),
        ImgExtTag::Webp => as_loaded(webp_result(bytes)),
        ImgExtTag::Tga => as_loaded(tga_result(bytes)),
        ImgExtTag::Ff => as_loaded(ff_result(bytes)),
        ImgExtTag::Qoi => as_loaded(qoi_result(bytes)),
        ImgExtTag::Unknown => as_loaded(unknown_image(guessed_format(bytes), guessed_decoding(bytes))),
    }
}

fn as_obraz(r: Result<DecodedImage, ImageError>) -> (o: Result<Wczytany, ImageError>)
    ensures
        loaded(o) == as_loaded(outcome(r)),
{
    match r {
        Ok(img) => Ok(Wczytany::Obraz(img)),
        Err(e) => Err(e),
    }
}

/// Decodes a file's contents with the decoder for the format its bytes show.
pub fn dekoduj(bajty: Vec<u8>) -> (r: Result<Wczytany, ImageError>)
    ensures
        loaded(r) == decoded(bajty@),
{
    match rozpoznaj_format(bajty.as_slice()) {
        ImgExtTag::Avif => Ok(Wczytany::Avif(bajty)),
        ImgExtTag::Exr => Ok(Wczytany::Exr(bajty)),
        ImgExtTag::Jpg => as_obraz(jpeg(&bajty)),
        ImgExtTag::Png => as_obraz(png(&bajty)),
        ImgExtTag::Webp => as_obraz(webp(&bajty)),
        ImgExtTag::Tga => as_obraz(tga(&bajty)),
        ImgExtTag::Ff => as_obraz(ff(bajty.as_slice())),
        ImgExtTag::Qoi => as_obraz(qoi(&bajty)),
        ImgExtTag::Unknown => as_obraz(unknown(&bajty)),
    }
}

/// The name an image is saved under: its file's stem, "nieznany" where it
/// has none.
pub open spec fn image_name(stem: Option<Seq<char>>) -> Seq<char> {
    match stem {
        Some(s) => s,
        None => "nieznany"@,
    }
}

/// The extension that picks the unpacking: the file's, in lower case, or
/// none.
pub open spec fn lowered_extension(extension: Option<Seq<char>>) -> Seq<char> {
    match extension {
        Some(e) => str_lowercase(e),
        None => str_lowercase(""@),
    }
}

pub open spec fn text_opt(o: Option<String>) -> Option<Seq<char>> {
    match o {
        Some(s) => Some(s@),
        None => None,
    }
}

/// Loads an image file from its stem, its extension and its bytes: unpacks
/// it by the extension, then decodes it; gives the name to save it under.
pub fn wczytaj_pliki(stem: Option<String>, extension: Option<String>, bajty: Vec<u8>)
    -> (r: Result<(Wczytany, String), ImageError>)
    ensures
        match unpacked_for(lowered_extension(text_opt(extension)), bajty@) {
            Err(m) => r is Err && r->Err_0.kind == ImageErrorKind::Other && r->Err_0.message@ == m,
            Ok(contents) => match r {
                Ok((w, name)) => decoded(contents) == Ok::<WczytanyView, (ImageErrorKind, Seq<char>)>(wczytany_view(w))
                    && name@ == image_name(text_opt(stem)),
                Err(e) => decoded(contents) == Err::<WczytanyView, (ImageErrorKind, Seq<char>)>((e.kind, e.message@)),
            },
        },
{
    let nazwa = match stem {
        Some(s) => s,
        None => "nieznany".to_owned(),
    };
    let rozszerzenie = match &extension {
        Some(e) => to_lower(e.as_str()),
        None => to_lower(""),
    };
    let zawartosc = match rozpakuj(rozszerzenie.as_str(), bajty) {
        Ok(v) => v,
        Err(e) => return Err(e),
    };
    match dekoduj(zawartosc) {
        Ok(w) => Ok((w, nazwa)),
        Err(e) => Err(e),
    }
}

} // verus!
