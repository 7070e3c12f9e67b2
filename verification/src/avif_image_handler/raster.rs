//! Decoded images: pixel buffers of a known layout, checked against their
//! dimensions as `image::ImageBuffer::from_raw` checks them.
use vstd::prelude::*;

verus! {

/// A buffer of 8-bit samples.
#[derive(Debug)]
pub struct Buffer8 {
    pub width: u32,
    pub height: u32,
    pub data: Vec<u8>,
}

/// A buffer of 16-bit samples.
#[derive(Debug)]
pub struct Buffer16 {
    pub width: u32,
    pub height: u32,
    pub data: Vec<u16>,
}

/// A decoded image, in the layouts that the decoders produce.
#[derive(Debug)]
pub enum DecodedImage {
    Luma8(Buffer8),
    LumaA8(Buffer8),
    Rgb8(Buffer8),
    Rgba8(Buffer8),
    Luma16(Buffer16),
    LumaA16(Buffer16),
    Rgb16(Buffer16),
    Rgba16(Buffer16),
}

/// The sample layout of a decoded image.
#[derive(Clone, Copy, Debug, PartialEq, Eq, Structural)]
pub enum Layout {
    Luma8,
    LumaA8,
    Rgb8,
    Rgba8,
    Luma16,
    LumaA16,
    Rgb16,
    Rgba16,
}

/// What a decoded image holds: its layout, dimensions and samples (8-bit
/// layouts keep `bytes` and no `words`, 16-bit ones the reverse).
pub struct ImageView {
    pub layout: Layout,
    pub width: u32,
    pub height: u32,
    pub bytes: Seq<u8>,
    pub words: Seq<u16>,
}

pub open spec fn view8(layout: Layout, b: Buffer8) -> ImageView {
    ImageView { layout, width: b.width, height: b.height, bytes: b.data@, words: Seq::empty() }
}

pub open spec fn view16(layout: Layout, b: Buffer16) -> ImageView {
    ImageView { layout, width: b.width, height: b.height, bytes: Seq::empty(), words: b.data@ }
}

impl View for DecodedImage {
    type V = ImageView;

    open spec fn view(&self) -> ImageView {
        match self {
            DecodedImage::Luma8(b) => view8(Layout::Luma8, *b),
            DecodedImage::LumaA8(b) => view8(Layout::LumaA8, *b),
            DecodedImage::Rgb8(b) => view8(Layout::Rgb8, *b),
            DecodedImage::Rgba8(b) => view8(Layout::Rgba8, *b),
            DecodedImage::Luma16(b) => view16(Layout::Luma16, *b),
            DecodedImage::LumaA16(b) => view16(Layout::LumaA16, *b),
            DecodedImage::Rgb16(b) => view16(Layout::Rgb16, *b),
            DecodedImage::Rgba16(b) => view16(Layout::Rgba16, *b),
        }
    }
}

/// An 8-bit image of the given layout.
pub open spec fn image8(layout: Layout, width: u32, height: u32, bytes: Seq<u8>) -> ImageView {
    ImageView { layout, width, height, bytes, words: Seq::empty() }
}

/// A 16-bit image of the given layout.
pub open spec fn image16(layout: Layout, width: u32, height: u32, words: Seq<u16>) -> ImageView {
    ImageView { layout, width, height, bytes: Seq::empty(), words }
}

/// Samples per pixel of a layout.
pub open spec fn channels(layout: Layout) -> int {
    match layout {
        Layout::Luma8 | Layout::Luma16 => 1,
        Layout::LumaA8 | Layout::LumaA16 => 2,
        Layout::Rgb8 | Layout::Rgb16 => 3,
        Layout::Rgba8 | Layout::Rgba16 => 4,
    }
}

/// The outcome of a decoder, seen through the views of its parts.
pub open spec fn outcome(r: Result<DecodedImage, ImageError>) -> Result<ImageView, (ImageErrorKind, Seq<char>)> {
    match r {
        Ok(img) => Ok(img@),
        Err(e) => Err((e.kind, e.message@)),
    }
}

/// An 8-bit image of `layout` if the samples fill it, else the error `message`.
pub open spec fn checked8(layout: Layout, width: u32, height: u32, bytes: Seq<u8>, message: Seq<char>)
    -> Result<ImageView, (ImageErrorKind, Seq<char>)> {
    if fits(width, height, channels(layout), bytes.len() as int) {
        Ok(image8(layout, width, height, bytes))
    } else {
        Err((ImageErrorKind::Other, message))
    }
}

/// A 16-bit image of `layout` if the samples fill it, else the error `message`.
pub open spec fn checked16(layout: Layout, width: u32, height: u32, words: Seq<u16>, message: Seq<char>)
    -> Result<ImageView, (ImageErrorKind, Seq<char>)> {
    if fits(width, height, channels(layout), words.len() as int) {
        Ok(image16(layout, width, height, words))
    } else {
        Err((ImageErrorKind::Other, message))
    }
}

/// Kinds of decoding failure, as `std::io::ErrorKind` names them.
#[derive(Clone, Copy, Debug, PartialEq, Eq, Structural)]
pub enum ImageErrorKind {
    Other,
    Unsupported,
    InvalidData,
}

/// A decoding failure and its message.
#[derive(Debug)]
pub struct ImageError {
    pub kind: ImageErrorKind,
    pub message: String,
}

impl ImageError {
    pub fn other(message: &str) -> (r: ImageError)
        ensures
            r.kind == ImageErrorKind::Other,
            r.message@ == message@,
    {
        ImageError { kind: ImageErrorKind::Other, message: message.to_owned() }
    }

    pub fn with_kind(kind: ImageErrorKind, message: String) -> (r: ImageError)
        ensures
            r.kind == kind,
            r.message == message,
    {
        ImageError { kind, message }
    }
}

/// A buffer of `len` samples holds a `width` x `height` image of `channels`
/// samples per pixel.
pub open spec fn fits(width: u32, height: u32, channels: int, len: int) -> bool {
    channels * (width as int * height as int) <= len
}

/// The pixel count of a `u32` x `u32` image is below 2^64.
pub proof fn lemma_pixel_count_bound(width: u32, height: u32)
    ensures
        0 <= width as int * height as int <= 0xffff_fffe_0000_0001,
{
    assert(0 <= width as int * height as int <= 0xffff_fffe_0000_0001) by (nonlinear_arith)
        requires
            width <= 0xffff_ffff,
            height <= 0xffff_ffff,
    ;
}

/// Whether `len` samples hold a `width` x `height` image of `channels`
/// samples per pixel.
pub fn buffer_fits(width: u32, height: u32, channels: u8, len: usize) -> (r: bool)
    requires
        1 <= channels <= 4,
    ensures
        r == fits(width, height, channels as int, len as int),
{
    let w = width as u128;
    let h = height as u128;
    assert(w * h <= 0xffff_ffff_ffff_ffff_ffff_ffff_ffff_ffffu128 / 4) by (nonlinear_arith)
        requires
            w <= 0xffff_ffff,
            h <= 0xffff_ffff,
    ;
    let pixels: u128 = w * h;
    let c = channels as u128;
    assert(c * pixels <= 0xffff_ffff_ffff_ffff_ffff_ffff_ffff_ffffu128) by (nonlinear_arith)
        requires
            c <= 4,
            pixels <= 0xffff_ffff_ffff_ffff_ffff_ffff_ffff_ffffu128 / 4,
    ;
    c * pixels <= len as u128
}

/// Wraps 8-bit samples as an image of `layout`, as `ImageBuffer::from_raw`
/// does: only if they fill a `width` x `height` image; else fails with `message`.
pub fn from_raw8(layout: Layout, width: u32, height: u32, data: Vec<u8>, message: &str)
    -> (r: Result<DecodedImage, ImageError>)
    requires
        layout != Layout::Luma16 && layout != Layout::LumaA16 && layout != Layout::Rgb16
            && layout != Layout::Rgba16,
    ensures
        outcome(r) == checked8(layout, width, height, data@, message@),
{
    let c: u8 = match layout {
        Layout::Luma8 => 1,
        Layout::LumaA8 => 2,
        Layout::Rgb8 => 3,
        _ => 4,
    };
    if !buffer_fits(width, height, c, data.len()) {
        return Err(ImageError::other(message));
    }
    let b = Buffer8 { width, height, data };
    match layout {
        Layout::Luma8 => Ok(DecodedImage::Luma8(b)),
        Layout::LumaA8 => Ok(DecodedImage::LumaA8(b)),
        Layout::Rgb8 => Ok(DecodedImage::Rgb8(b)),
        _ => Ok(DecodedImage::Rgba8(b)),
    }
}

/// Wraps 16-bit samples as an image of `layout`, as `ImageBuffer::from_raw`
/// does: only if they fill a `width` x `height` image; else fails with `message`.
pub fn from_raw16(layout: Layout, width: u32, height: u32, data: Vec<u16>, message: &str)
    -> (r: Result<DecodedImage, ImageError>)
    requires
        layout == Layout::Luma16 || layout == Layout::LumaA16 || layout == Layout::Rgb16
            || layout == Layout::Rgba16,
    ensures
        outcome(r) == checked16(layout, width, height, data@, message@),
{
    let c: u8 = match layout {
        Layout::Luma16 => 1,
        Layout::LumaA16 => 2,
        Layout::Rgb16 => 3,
        _ => 4,
    };
    if !buffer_fits(width, height, c, data.len()) {
        return Err(ImageError::other(message));
    }
    let b = Buffer16 { width, height, data };
    match layout {
        Layout::Luma16 => Ok(DecodedImage::Luma16(b)),
        Layout::LumaA16 => Ok(DecodedImage::LumaA16(b)),
        Layout::Rgb16 => Ok(DecodedImage::Rgb16(b)),
        _ => Ok(DecodedImage::Rgba16(b)),
    }
}

/// Big-endian 16-bit samples from pairs of bytes; a trailing odd byte is dropped.
pub open spec fn be_words(data: Seq<u8>) -> Seq<u16> {
    Seq::new(data.len() / 2, |i: int| (data[2 * i] as int * 256 + data[2 * i + 1] as int) as u16)
}

/// Reads big-endian 16-bit samples, as `u16::from_be_bytes` over the
/// exact pairs of `data`.
pub fn bytes_to_u16(data: &[u8]) -> (r: Vec<u16>)
    ensures
        r@ == be_words(data@),
{
    let n = data.len() / 2;
    let mut out: Vec<u16> = Vec::new();
    let mut i: usize = 0;
    while i < n
        invariant
            n == data@.len() / 2,
            i <= n,
            2 * n <= data@.len(),
            out@ == be_words(data@).take(i as int),
        decreases n - i,
    {
        assert(2 * i + 1 < data@.len());
        assert(data@.len() == data.len());
        let hi = data[2 * i] as u16;
        let lo = data[2 * i + 1] as u16;
        out.push(hi * 256 + lo);
        assert(out@ =~= be_words(data@).take(i + 1));
        i = i + 1;
    }
    assert(be_words(data@).take(n as int) =~= be_words(data@));
    out
}

/// What an `image` crate decoder yields: dimensions, the `Debug` name of its
/// `image::ColorType` ("L8", "La8", "Rgb8", ...) and the samples.
pub struct DecoderFrame {
    pub width: u32,
    pub height: u32,
    pub color_name: String,
    pub pixels: Vec<u8>,
}

/// What an `image` crate decoder yields for a 16-bit image: dimensions, the
/// `Debug` name of its `image::ColorType` ("L16", "La16", "Rgb16", "Rgba16")
/// and the samples.
pub struct DecoderFrame16 {
    pub width: u32,
    pub height: u32,
    pub color_name: String,
    pub words: Vec<u16>,
}

/// What a decoder of the `image` crate that yields a `DynamicImage` gave:
/// a failure and its message, an 8-bit image, a 16-bit image, or an image of
/// 32-bit float samples (by the `Debug` name of its `ColorType`), which the
/// library does not hold.
pub enum ForeignRead {
    Failed(String),
    Layout(String),
    Frame(DecoderFrame),
    Frame16(DecoderFrame16),
}

/// A `ForeignRead` by the views of its parts.
pub enum ForeignReadView {
    Failed(Seq<char>),
    Layout(Seq<char>),
    Frame(u32, u32, Seq<char>, Seq<u8>),
    Frame16(u32, u32, Seq<char>, Seq<u16>),
}

pub open spec fn foreign_view(r: ForeignRead) -> ForeignReadView {
    match r {
        ForeignRead::Failed(m) => ForeignReadView::Failed(m@),
        ForeignRead::Layout(n) => ForeignReadView::Layout(n@),
        ForeignRead::Frame(f) => ForeignReadView::Frame(f.width, f.height, f.color_name@, f.pixels@),
        ForeignRead::Frame16(f) => ForeignReadView::Frame16(f.width, f.height, f.color_name@, f.words@),
    }
}

/// The image a 16-bit frame makes, by the name of its color type; any other
/// name is an unsupported layout.
pub open spec fn frame16_image(width: u32, height: u32, color_name: Seq<char>, words: Seq<u16>)
    -> Result<ImageView, (ImageErrorKind, Seq<char>)> {
    if color_name == "L16"@ {
        checked16(Layout::Luma16, width, height, words, "Błąd bufora obrazu L16"@)
    } else if color_name == "La16"@ {
        checked16(Layout::LumaA16, width, height, words, "Błąd bufora obrazu La16"@)
    } else if color_name == "Rgb16"@ {
        checked16(Layout::Rgb16, width, height, words, "Błąd bufora obrazu Rgb16"@)
    } else if color_name == "Rgba16"@ {
        checked16(Layout::Rgba16, width, height, words, "Błąd bufora obrazu Rgba16"@)
    } else {
        Err((ImageErrorKind::Unsupported, "Nieobsługiwany układ pikseli: "@ + color_name))
    }
}

/// Makes the image of a 16-bit frame, as `frame16_image` says.
pub fn frame16_to_image(frame: DecoderFrame16) -> (r: Result<DecodedImage, ImageError>)
    ensures
        outcome(r) == frame16_image(frame.width, frame.height, frame.color_name@, frame.words@),
{
    let DecoderFrame16 { width, height, color_name, words } = frame;
    let name = color_name.as_str();
    if crate::text::same_text(name, "L16") {
        from_raw16(Layout::Luma16, width, height, words, "Błąd bufora obrazu L16")
    } else if crate::text::same_text(name, "La16") {
        from_raw16(Layout::LumaA16, width, height, words, "Błąd bufora obrazu La16")
    } else if crate::text::same_text(name, "Rgb16") {
        from_raw16(Layout::Rgb16, width, height, words, "Błąd bufora obrazu Rgb16")
    } else if crate::text::same_text(name, "Rgba16") {
        from_raw16(Layout::Rgba16, width, height, words, "Błąd bufora obrazu Rgba16")
    } else {
        let mut message = "Nieobsługiwany układ pikseli: ".to_owned();
        message.append(name);
        Err(ImageError::with_kind(ImageErrorKind::Unsupported, message))
    }
}

/// The image an 8-bit frame makes, by the name of its color type; any other
/// name is an unsupported layout.
pub open spec fn frame8_image(width: u32, height: u32, color_name: Seq<char>, pixels: Seq<u8>)
    -> Result<ImageView, (ImageErrorKind, Seq<char>)> {
    if color_name == "L8"@ {
        checked8(Layout::Luma8, width, height, pixels, "Błąd bufora obrazu L8"@)
    } else if color_name == "La8"@ {
        checked8(Layout::LumaA8, width, height, pixels, "Błąd bufora obrazu La8"@)
    } else if color_name == "Rgb8"@ {
        checked8(Layout::Rgb8, width, height, pixels, "Błąd bufora obrazu Rgb8"@)
    } else if color_name == "Rgba8"@ {
        checked8(Layout::Rgba8, width, height, pixels, "Błąd bufora obrazu Rgba8"@)
    } else {
        Err((ImageErrorKind::Unsupported, "Nieobsługiwany układ pikseli: "@ + color_name))
    }
}

/// Makes the image of an 8-bit frame, as `frame8_image` says.
pub fn frame8_to_image(frame: DecoderFrame) -> (r: Result<DecodedImage, ImageError>)
    ensures
        outcome(r) == frame8_image(frame.width, frame.height, frame.color_name@, frame.pixels@),
{
    let DecoderFrame { width, height, color_name, pixels } = frame;
    let name = color_name.as_str();
    if crate::text::same_text(name, "L8") {
        from_raw8(Layout::Luma8, width, height, pixels, "Błąd bufora obrazu L8")
    } else if crate::text::same_text(name, "La8") {
        from_raw8(Layout::LumaA8, width, height, pixels, "Błąd bufora obrazu La8")
    } else if crate::text::same_text(name, "Rgb8") {
        from_raw8(Layout::Rgb8, width, height, pixels, "Błąd bufora obrazu Rgb8")
    } else if crate::text::same_text(name, "Rgba8") {
        from_raw8(Layout::Rgba8, width, height, pixels, "Błąd bufora obrazu Rgba8")
    } else {
        let mut message = "Nieobsługiwany układ pikseli: ".to_owned();
        message.append(name);
        Err(ImageError::with_kind(ImageErrorKind::Unsupported, message))
    }
}

/// The first `row_len` bytes of each of `rows` rows laid out `stride` bytes
/// apart, one row after another.
pub open spec fn packed_rows(data: Seq<u8>, row_len: int, stride: int, rows: int) -> Seq<u8>
    decreases rows,
{
    if rows <= 0 {
        Seq::empty()
    } else {
        packed_rows(data, row_len, stride, rows - 1)
            + data.subrange((rows - 1) * stride, (rows - 1) * stride + row_len)
    }
}

/// Drops the padding at the end of each row of a plane whose rows lie
/// `stride` bytes apart, keeping `row_len` bytes of each.
pub fn zwarte_wiersze(data: &[u8], row_len: usize, stride: usize, rows: usize) -> (r: Vec<u8>)
    requires
        row_len <= stride,
        rows as int * stride as int <= data@.len(),
    ensures
        r@ == packed_rows(data@, row_len as int, stride as int, rows as int),
{
    let mut out: Vec<u8> = Vec::new();
    let mut y: usize = 0;
    while y < rows
        invariant
            row_len <= stride,
            rows as int * stride as int <= data@.len(),
            y <= rows,
            out@ == packed_rows(data@, row_len as int, stride as int, y as int),
        decreases rows - y,
    {
        assert((y + 1) * stride <= rows * stride) by (nonlinear_arith)
            requires
                y < rows,
        ;
        assert(y * stride + stride == (y + 1) * stride) by (nonlinear_arith);
        assert(data@.len() == data.len());
        let start: usize = y * stride;
        let ghost before = out@;
        let mut x: usize = 0;
        while x < row_len
            invariant
                row_len <= stride,
                start as int + stride as int <= data@.len(),
                data@.len() == data.len(),
                x <= row_len,
                out@ == before + data@.subrange(start as int, start + x),
            decreases row_len - x,
        {
            out.push(data[start + x]);
            assert(data@.subrange(start as int, start + x + 1) =~= data@.subrange(start as int, start + x).push(data@[start + x]));
            x = x + 1;
        }
        y = y + 1;
    }
    out
}

} // verus!
