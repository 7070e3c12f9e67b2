//! Recognising an image container from its leading (and, for TGA, trailing) bytes.
use vstd::prelude::*;

verus! {

/// Image container formats recognised from their signature bytes.
#[derive(Clone, Copy, Debug, PartialEq, Eq, Structural)]
pub enum ImgExtTag {
    Jpg,
    Png,
    Webp,
    Tga,
    Ff,
    Qoi,
    Avif,
    Exr,
    Unknown,
}

/// `b` holds the bytes of `pat` starting at position `start`.
pub open spec fn matches_at(b: Seq<u8>, start: int, pat: Seq<u8>) -> bool {
    &&& 0 <= start
    &&& start + pat.len() <= b.len()
    &&& b.subrange(start, start + pat.len()) == pat
}

pub open spec fn png_signature() -> Seq<u8> {
    seq![0x89u8, 0x50u8, 0x4Eu8, 0x47u8, 0x0Du8, 0x0Au8, 0x1Au8, 0x0Au8]
}

pub open spec fn jpg_signature() -> Seq<u8> {
    seq![0xFFu8, 0xD8u8, 0xFFu8]
}

/// "qoif"
pub open spec fn qoi_signature() -> Seq<u8> {
    seq![0x71u8, 0x6Fu8, 0x69u8, 0x66u8]
}

/// "farbfeld"
pub open spec fn farbfeld_signature() -> Seq<u8> {
    seq![0x66u8, 0x61u8, 0x72u8, 0x62u8, 0x66u8, 0x65u8, 0x6Cu8, 0x64u8]
}

/// "RIFF"
pub open spec fn riff_signature() -> Seq<u8> {
    seq![0x52u8, 0x49u8, 0x46u8, 0x46u8]
}

/// "WEBP"
pub open spec fn webp_signature() -> Seq<u8> {
    seq![0x57u8, 0x45u8, 0x42u8, 0x50u8]
}

/// "ftypavif"
pub open spec fn avif_brand() -> Seq<u8> {
    seq![0x66u8, 0x74u8, 0x79u8, 0x70u8, 0x61u8, 0x76u8, 0x69u8, 0x66u8]
}

pub open spec fn exr_signature() -> Seq<u8> {
    seq![0x76u8, 0x2Fu8, 0x31u8, 0x01u8]
}

/// "TRUEVISION-XFILE", the signature of a TGA 2.0 footer.
pub open spec fn tga_footer_signature() -> Seq<u8> {
    seq![
        0x54u8, 0x52u8, 0x55u8, 0x45u8, 0x56u8, 0x49u8, 0x53u8, 0x49u8,
        0x4Fu8, 0x4Eu8, 0x2Du8, 0x58u8, 0x46u8, 0x49u8, 0x4Cu8, 0x45u8,
    ]
}

/// The format that the first twelve bytes announce, checked in a fixed order.
pub open spec fn signature_format(b: Seq<u8>) -> ImgExtTag {
    if matches_at(b, 0, png_signature()) {
        ImgExtTag::Png
    } else if matches_at(b, 0, jpg_signature()) {
        ImgExtTag::Jpg
    } else if matches_at(b, 0, qoi_signature()) {
        ImgExtTag::Qoi
    } else if matches_at(b, 0, farbfeld_signature()) {
        ImgExtTag::Ff
    } else if matches_at(b, 0, riff_signature()) && matches_at(b, 8, webp_signature()) {
        ImgExtTag::Webp
    } else if matches_at(b, 4, avif_brand()) {
        ImgExtTag::Avif
    } else if matches_at(b, 0, exr_signature()) {
        ImgExtTag::Exr
    } else {
        ImgExtTag::Unknown
    }
}

/// A TGA image: TGA has no leading magic, so either its 2.0 footer is present
/// (26 bytes before the end) or the header's color-map and image-type bytes are
/// ones that TGA allows.
pub open spec fn looks_like_tga(b: Seq<u8>) -> bool {
    if b.len() < 18 {
        false
    } else if b.len() >= 26 && matches_at(b, b.len() - 18, tga_footer_signature()) {
        true
    } else {
        &&& b[1] <= 1
        &&& (b[2] == 1 || b[2] == 2 || b[2] == 3 || b[2] == 9 || b[2] == 10 || b[2] == 11)
    }
}

/// The format recognised for a whole file.
pub open spec fn recognised_format(b: Seq<u8>) -> ImgExtTag {
    if b.len() < 12 {
        ImgExtTag::Unknown
    } else if looks_like_tga(b) {
        ImgExtTag::Tga
    } else {
        signature_format(b)
    }
}

/// The bytes "TRUEVISION-XFILE" stand 18 bytes before the end of the file.
pub open spec fn has_tga_footer_bytes(b: Seq<u8>) -> bool {
    b.len() >= 26 && b.subrange(b.len() - 18, b.len() - 2) == seq![
        0x54u8, 0x52u8, 0x55u8, 0x45u8, 0x56u8, 0x49u8, 0x53u8, 0x49u8,
        0x4Fu8, 0x4Eu8, 0x2Du8, 0x58u8, 0x46u8, 0x49u8, 0x4Cu8, 0x45u8,
    ]
}

/// TGA law: a file of at least 18 bytes whose color-map byte is 0 or 1 and
/// whose image-type byte is a TGA image type (1, 2, 3 uncompressed; 9, 10,
/// 11 run-length encoded) is recognised as TGA, whatever else it holds.
pub proof fn lemma_tga_header_recognised(b: Seq<u8>)
    requires
        b.len() >= 18,
        b[1] == 0 || b[1] == 1,
        b[2] == 1 || b[2] == 2 || b[2] == 3 || b[2] == 9 || b[2] == 10 || b[2] == 11,
    ensures
        looks_like_tga(b),
        recognised_format(b) == ImgExtTag::Tga,
{
}

/// TGA law: a file of at least 26 bytes with the TGA 2.0 footer is
/// recognised as TGA, whatever its header holds.
pub proof fn lemma_tga_footer_recognised(b: Seq<u8>)
    requires
        has_tga_footer_bytes(b),
    ensures
        looks_like_tga(b),
        recognised_format(b) == ImgExtTag::Tga,
{
    assert(tga_footer_signature() =~= b.subrange(b.len() - 18, b.len() - 2));
}

/// Signature law: a file of at least 12 bytes that is no TGA (its color-map
/// byte is above 1 and it has no TGA footer) is recognised by its leading
/// bytes: the PNG, JPEG, QOI, farbfeld, RIFF/WEBP, AVIF ("ftypavif" at
/// byte 4) and OpenEXR signatures, in that order of precedence; anything
/// else is unknown.
pub proof fn lemma_signatures_recognised(b: Seq<u8>)
    requires
        b.len() >= 12,
        b[1] > 1,
        !has_tga_footer_bytes(b),
    ensures
        b.take(8) == seq![0x89u8, 0x50u8, 0x4Eu8, 0x47u8, 0x0Du8, 0x0Au8, 0x1Au8, 0x0Au8]
            ==> recognised_format(b) == ImgExtTag::Png,
        b[0] == 0xFF && b[1] == 0xD8 && b[2] == 0xFF ==> recognised_format(b) == ImgExtTag::Jpg,
        b.take(4) == seq![0x71u8, 0x6Fu8, 0x69u8, 0x66u8] ==> recognised_format(b) == ImgExtTag::Qoi,
        b.take(8) == seq![0x66u8, 0x61u8, 0x72u8, 0x62u8, 0x66u8, 0x65u8, 0x6Cu8, 0x64u8]
            ==> recognised_format(b) == ImgExtTag::Ff,
        b.take(4) == seq![0x52u8, 0x49u8, 0x46u8, 0x46u8] && b.subrange(8, 12) == seq![0x57u8, 0x45u8, 0x42u8, 0x50u8]
            ==> recognised_format(b) == ImgExtTag::Webp,
        b[0] != 0x89 && b[0] != 0xFF && b[0] != 0x71 && b[0] != 0x66 && b[0] != 0x52 && b[0] != 0x76
            && b.subrange(4, 12) == seq![0x66u8, 0x74u8, 0x79u8, 0x70u8, 0x61u8, 0x76u8, 0x69u8, 0x66u8]
            ==> recognised_format(b) == ImgExtTag::Avif,
        b.take(4) == seq![0x76u8, 0x2Fu8, 0x31u8, 0x01u8] && b.subrange(4, 8) != seq![0x66u8, 0x74u8, 0x79u8, 0x70u8]
            ==> recognised_format(b) == ImgExtTag::Exr,
        b[0] != 0x89 && b[0] != 0xFF && b[0] != 0x71 && b[0] != 0x66 && b[0] != 0x52 && b[0] != 0x76
            && b.subrange(4, 8) != seq![0x66u8, 0x74u8, 0x79u8, 0x70u8]
            ==> recognised_format(b) == ImgExtTag::Unknown,
{
    if b.len() >= 26 && matches_at(b, b.len() - 18, tga_footer_signature()) {
        assert(b.subrange(b.len() - 18, b.len() - 2) =~= tga_footer_signature());
    }
    assert(!looks_like_tga(b));
    if b.take(8) == png_signature() {
        assert(b.subrange(0, 8) =~= b.take(8));
    }
    if b[0] == 0xFF && b[1] == 0xD8 && b[2] == 0xFF {
        assert(b.subrange(0, 3) =~= jpg_signature());
    }
    if b.take(4) == qoi_signature() {
        assert(b.subrange(0, 4) =~= b.take(4));
    }
    if b.take(8) == farbfeld_signature() {
        assert(b.subrange(0, 8) =~= b.take(8));
    }
    if b.take(4) == riff_signature() {
        assert(b.subrange(0, 4) =~= b.take(4));
    }
    if b.take(4) == exr_signature() {
        assert(b.subrange(0, 4) =~= b.take(4));
    }
    if matches_at(b, 0, png_signature()) {
        assert(b.subrange(0, 8)[0] == b[0]);
    }
    if matches_at(b, 0, jpg_signature()) {
        assert(b.subrange(0, 3)[0] == b[0]);
    }
    if matches_at(b, 0, qoi_signature()) {
        assert(b.subrange(0, 4)[0] == b[0]);
    }
    if matches_at(b, 0, farbfeld_signature()) {
        assert(b.subrange(0, 8)[0] == b[0]);
    }
    if matches_at(b, 0, riff_signature()) {
        assert(b.subrange(0, 4)[0] == b[0]);
    }
    if matches_at(b, 0, exr_signature()) {
        assert(b.subrange(0, 4)[0] == b[0]);
    }
    if matches_at(b, 4, avif_brand()) {
        assert(b.subrange(4, 12).subrange(0, 4) =~= b.subrange(4, 8));
        assert(avif_brand().subrange(0, 4) =~= seq![0x66u8, 0x74u8, 0x79u8, 0x70u8]);
    }
}

/// Size law: a file shorter than 12 bytes is not recognised.
pub proof fn lemma_short_file_unknown(b: Seq<u8>)
    requires
        b.len() < 12,
    ensures
        recognised_format(b) == ImgExtTag::Unknown,
{
}

/// Whether `b` holds `pat` at `start`.
fn bytes_match_at(b: &[u8], start: usize, pat: &[u8]) -> (r: bool)
    ensures
        r == matches_at(b@, start as int, pat@),
{
    if start > b.len() || pat.len() > b.len() - start {
        return false;
    }
    let mut i: usize = 0;
    while i < pat.len()
        invariant
            start + pat@.len() <= b@.len(),
            b@.len() == b.len(),
            pat@.len() == pat.len(),
            i <= pat@.len(),
            forall|k: int| 0 <= k < i ==> b@[start + k] == pat@[k],
        decreases pat@.len() - i,
    {
        if b[start + i] != pat[i] {
            assert(b@.subrange(start as int, start + pat@.len())[i as int] != pat@[i as int]);
            return false;
        }
        i = i + 1;
    }
    assert(b@.subrange(start as int, start + pat@.len()) =~= pat@);
    true
}

/// Checks for a TGA image, which has no leading signature.
pub fn jest_tga(bajty: &[u8]) -> (r: bool)
    ensures
        r == looks_like_tga(bajty@),
{
    let len = bajty.len();
    if len < 18 {
        return false;
    }
    if len >= 26 {
        let footer: [u8; 16] = [
            0x54, 0x52, 0x55, 0x45, 0x56, 0x49, 0x53, 0x49, 0x4F, 0x4E, 0x2D, 0x58, 0x46, 0x49,
            0x4C, 0x45,
        ];
        assert(footer@ =~= tga_footer_signature());
        if bytes_match_at(bajty, len - 18, &footer) {
            return true;
        }
    }
    let color_map_type = bajty[1];
    let image_type = bajty[2];
    let poprawny_color_map = color_map_type <= 1;
    let poprawny_image_type = image_type == 1 || image_type == 2 || image_type == 3
        || image_type == 9 || image_type == 10 || image_type == 11;
    poprawny_color_map && poprawny_image_type
}

/// The format that the signature bytes announce.
fn signature_of(bajty: &[u8]) -> (r: ImgExtTag)
    ensures
        r == signature_format(bajty@),
{
    let png: [u8; 8] = [0x89, 0x50, 0x4E, 0x47, 0x0D, 0x0A, 0x1A, 0x0A];
    let jpg: [u8; 3] = [0xFF, 0xD8, 0xFF];
    let qoi: [u8; 4] = [0x71, 0x6F, 0x69, 0x66];
    let ff: [u8; 8] = [0x66, 0x61, 0x72, 0x62, 0x66, 0x65, 0x6C, 0x64];
    let riff: [u8; 4] = [0x52, 0x49, 0x46, 0x46];
    let webp: [u8; 4] = [0x57, 0x45, 0x42, 0x50];
    let avif: [u8; 8] = [0x66, 0x74, 0x79, 0x70, 0x61, 0x76, 0x69, 0x66];
    let exr: [u8; 4] = [0x76, 0x2F, 0x31, 0x01];
    assert(png@ =~= png_signature());
    assert(jpg@ =~= jpg_signature());
    assert(qoi@ =~= qoi_signature());
    assert(ff@ =~= farbfeld_signature());
    assert(riff@ =~= riff_signature());
    assert(webp@ =~= webp_signature());
    assert(avif@ =~= avif_brand());
    assert(exr@ =~= exr_signature());
    if bytes_match_at(bajty, 0, &png) {
        ImgExtTag::Png
    } else if bytes_match_at(bajty, 0, &jpg) {
        ImgExtTag::Jpg
    } else if bytes_match_at(bajty, 0, &qoi) {
        ImgExtTag::Qoi
    } else if bytes_match_at(bajty, 0, &ff) {
        ImgExtTag::Ff
    } else if bytes_match_at(bajty, 0, &riff) && bytes_match_at(bajty, 8, &webp) {
        ImgExtTag::Webp
    } else if bytes_match_at(bajty, 4, &avif) {
        ImgExtTag::Avif
    } else if bytes_match_at(bajty, 0, &exr) {
        ImgExtTag::Exr
    } else {
        ImgExtTag::Unknown
    }
}

/// Recognises the image format of a file's bytes, for choosing its decoder.
pub fn rozpoznaj_format(bajty: &[u8]) -> (r: ImgExtTag)
    ensures
        r == recognised_format(bajty@),
{
    if bajty.len() < 12 {
        return ImgExtTag::Unknown;
    }
    let typ = signature_of(bajty);
    if jest_tga(bajty) {
        return ImgExtTag::Tga;
    }
    typ
}

} // verus!
