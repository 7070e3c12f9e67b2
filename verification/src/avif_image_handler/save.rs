//! Preparing images for AVIF encoding: the sizes each image is saved in,
//! the file names, and the split of interleaved RGBA samples into the four
//! planes that the encoder takes.
use vstd::prelude::*;
use crate::text::concat_text;

verus! {

/// The sizes (the longer side, in pixels) that each image is saved in,
/// largest first.
pub open spec fn avif_sizes() -> Seq<u32> {
    seq![2048u32, 1024u32, 512u32, 256u32, 128u32, 64u32, 32u32, 16u32]
}

pub fn rozmiary() -> (r: Vec<u32>)
    ensures
        r@ == avif_sizes(),
{
    let r = vec![2048u32, 1024, 512, 256, 128, 64, 32, 16];
    assert(r@ =~= avif_sizes());
    r
}

/// The suffix of the file saved at a size: the size in decimal for the
/// sizes above, nothing for any other.
pub open spec fn size_suffix(x: u32) -> Seq<char> {
    if x == 2048 {
        "2048"@
    } else if x == 1024 {
        "1024"@
    } else if x == 512 {
        "512"@
    } else if x == 256 {
        "256"@
    } else if x == 128 {
        "128"@
    } else if x == 64 {
        "64"@
    } else if x == 32 {
        "32"@
    } else if x == 16 {
        "16"@
    } else {
        ""@
    }
}

pub fn nazwa_dodatkowa(x: u32) -> (r: &'static str)
    ensures
        r@ == size_suffix(x),
{
    match x {
        2048 => "2048",
        1024 => "1024",
        512 => "512",
        256 => "256",
        128 => "128",
        64 => "64",
        32 => "32",
        16 => "16",
        _ => "",
    }
}

/// The file an image is saved to at a size: `{name}_{suffix}.avif`.
pub fn nazwa_pliku_avif(nazwa: &str, x: u32) -> (r: String)
    ensures
        r@ == nazwa@ + "_"@ + size_suffix(x) + ".avif"@,
{
    let a = concat_text(nazwa, "_");
    let b = concat_text(a.as_str(), nazwa_dodatkowa(x));
    concat_text(b.as_str(), ".avif")
}

/// Row `y` of plane `c` (0 red, 1 green, 2 blue, 3 alpha): `stride` bytes,
/// the first `w` of them the samples of that row's pixels where the
/// interleaved data has the row, zero elsewhere.
pub open spec fn plane_row(raw: Seq<u8>, w: int, stride: int, c: int, y: int) -> Seq<u8> {
    Seq::new(stride as nat, |x: int|
        if x < w && y < raw.len() as int / (4 * w) { raw[4 * w * y + 4 * x + c] } else { 0u8 })
}

/// The first `rows` rows of plane `c`, one after another.
pub open spec fn plane(raw: Seq<u8>, w: int, stride: int, c: int, rows: int) -> Seq<u8>
    decreases rows,
{
    if rows <= 0 {
        Seq::empty()
    } else {
        plane(raw, w, stride, c, rows - 1) + plane_row(raw, w, stride, c, rows - 1)
    }
}

proof fn lemma_plane_len(raw: Seq<u8>, w: int, stride: int, c: int, rows: int)
    requires
        stride >= 0,
        rows >= 0,
    ensures
        plane(raw, w, stride, c, rows).len() == stride * rows,
    decreases rows,
{
    if rows > 0 {
        lemma_plane_len(raw, w, stride, c, rows - 1);
        assert(stride * (rows - 1) + stride == stride * rows) by (nonlinear_arith);
        assert(plane_row(raw, w, stride, c, rows - 1).len() == stride);
    } else {
        assert(stride * rows == 0) by (nonlinear_arith)
            requires
                rows == 0,
        ;
    }
}

/// Plane `c` of an image `w` pixels wide, `h` rows of `stride` bytes.
fn split_plane(raw: &[u8], w: u32, h: u32, stride: usize, c: usize) -> (r: Vec<u8>)
    requires
        w > 0,
        c < 4,
        stride >= w,
        stride as int * h as int <= usize::MAX,
    ensures
        r@ == plane(raw@, w as int, stride as int, c as int, h as int),
{
    let w4: u64 = 4 * (w as u64);
    let rows: u64 = (raw.len() as u64) / w4;
    let mut out: Vec<u8> = Vec::new();
    let mut y: u32 = 0;
    while y < h
        invariant
            w > 0,
            c < 4,
            stride >= w,
            stride as int * h as int <= usize::MAX,
            w4 == 4 * w,
            rows == raw@.len() as int / (4 * w as int),
            y <= h,
            out@ == plane(raw@, w as int, stride as int, c as int, y as int),
        decreases h - y,
    {
        let ghost before = out@;
        let mut x: usize = 0;
        while x < stride
            invariant
                w > 0,
                c < 4,
                stride >= w,
                w4 == 4 * w,
                rows == raw@.len() as int / (4 * w as int),
                y < h,
                x <= stride,
                out@ == before + plane_row(raw@, w as int, stride as int, c as int, y as int).take(x as int),
            decreases stride - x,
        {
            let sample: u8 = if x < w as usize && (y as u64) < rows {
                assert(raw@.len() == raw.len());
                assert(4 * w * y + 4 * x + c < raw@.len() && w4 * y + 4 * x + c < raw@.len()) by (nonlinear_arith)
                    requires
                        w4 == 4 * w,
                        x < w,
                        y < rows,
                        c < 4,
                        rows == raw@.len() as int / (4 * w as int),
                        w > 0,
                ;
                let at: u64 = w4 * (y as u64) + 4 * (x as u64) + (c as u64);
                raw[at as usize]
            } else {
                0
            };
            out.push(sample);
            proof {
                let row = plane_row(raw@, w as int, stride as int, c as int, y as int);
                assert(row[x as int] == sample);
                assert(row.take(x + 1) =~= row.take(x as int).push(sample));
            }
            x = x + 1;
        }
        proof {
            let row = plane_row(raw@, w as int, stride as int, c as int, y as int);
            assert(row.take(stride as int) =~= row);
        }
        y = y + 1;
    }
    out
}

/// The four planes of an image.
pub struct Plaszczyzny {
    pub r: Vec<u8>,
    pub g: Vec<u8>,
    pub b: Vec<u8>,
    pub a: Vec<u8>,
}

/// Splits interleaved 8-bit RGBA samples into four planes of `h` rows of
/// `stride` bytes, as the encoder's planes are laid out: row `y` of the
/// data goes to row `y` of each plane. The data must hold no more than `h`
/// rows.
pub fn rozdziel_kanaly(raw: &[u8], w: u32, h: u32, stride: usize) -> (r: Plaszczyzny)
    requires
        w > 0,
        stride >= w,
        stride as int * h as int <= usize::MAX,
        raw@.len() as int / (4 * w as int) <= h,
    ensures
        r.r@ == plane(raw@, w as int, stride as int, 0, h as int),
        r.g@ == plane(raw@, w as int, stride as int, 1, h as int),
        r.b@ == plane(raw@, w as int, stride as int, 2, h as int),
        r.a@ == plane(raw@, w as int, stride as int, 3, h as int),
{
    Plaszczyzny {
        r: split_plane(raw, w, h, stride, 0),
        g: split_plane(raw, w, h, stride, 1),
        b: split_plane(raw, w, h, stride, 2),
        a: split_plane(raw, w, h, stride, 3),
    }
}

} // verus!
