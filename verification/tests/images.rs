use shop_backend::avif_image_handler::wczytywanie::jpg::{jpeg_frame_to_image, JpegInfo};
use shop_backend::avif_image_handler::raster::{
    bytes_to_u16, from_raw8, DecodedImage, DecoderFrame, DecoderFrame16, ForeignRead, ImageErrorKind, Layout,
};
use shop_backend::avif_image_handler::save::{nazwa_dodatkowa, nazwa_pliku_avif, rozdziel_kanaly, rozmiary};
use shop_backend::avif_image_handler::wczytywanie::check_extension::{rozpoznaj_format, ImgExtTag};
use shop_backend::avif_image_handler::wczytywanie::exr::exr_channel_plan;
use shop_backend::avif_image_handler::wczytywanie::ff::ff;
use shop_backend::avif_image_handler::wczytywanie::main_wczytywanie::{dekoduj, rozpakuj, wczytaj_pliki, Wczytany};
use shop_backend::avif_image_handler::wczytywanie::png::png;
use shop_backend::avif_image_handler::wczytywanie::qoi::qoi;
use shop_backend::avif_image_handler::wczytywanie::tga::tga;
use shop_backend::avif_image_handler::wczytywanie::unknown::{unknown, unknown_read};
use shop_backend::avif_image_handler::wczytywanie::webp::{webp, webp_fallback};
use std::io::{Cursor, Write};

fn encoded(img: image::DynamicImage, format: image::ImageFormat) -> Vec<u8> {
    let mut out = Cursor::new(Vec::new());
    img.write_to(&mut out, format).unwrap();
    out.into_inner()
}

fn rgb_2x1() -> image::DynamicImage {
    image::DynamicImage::ImageRgb8(image::RgbImage::from_raw(2, 1, vec![10, 20, 30, 40, 50, 60]).unwrap())
}

fn rgba_2x1() -> image::DynamicImage {
    image::DynamicImage::ImageRgba8(image::RgbaImage::from_raw(2, 1, vec![1, 2, 3, 4, 5, 6, 7, 8]).unwrap())
}

#[test]
fn recognises_signatures() {
    assert_eq!(rozpoznaj_format(&[0x89, 0x50, 0x4E, 0x47, 0x0D, 0x0A, 0x1A, 0x0A, 0, 0, 0, 0]), ImgExtTag::Png);
    assert_eq!(rozpoznaj_format(&[0xFF, 0xD8, 0xFF, 0xE0, 0, 0, 0, 0, 0, 0, 0, 0]), ImgExtTag::Jpg);
    assert_eq!(rozpoznaj_format(&[0xFF, 0xD8, 0xFF, 0xE0]), ImgExtTag::Unknown);
    assert_eq!(rozpoznaj_format(b"qoif\0\0\0\0\0\0\0\0"), ImgExtTag::Qoi);
    assert_eq!(rozpoznaj_format(b"farbfeld\0\0\0\0"), ImgExtTag::Ff);
    assert_eq!(rozpoznaj_format(b"RIFF\0\0\0\0WEBPVP8 "), ImgExtTag::Webp);
    assert_eq!(rozpoznaj_format(b"\0\0\0\x1cftypavif"), ImgExtTag::Avif);
    assert_eq!(rozpoznaj_format(&[0x76, 0x2F, 0x31, 0x01, 2, 0, 0, 0, 0, 0, 0, 0]), ImgExtTag::Exr);
    let mut tga_header = vec![0u8; 18];
    tga_header[2] = 2;
    assert_eq!(rozpoznaj_format(&tga_header), ImgExtTag::Tga);
    let mut footer = vec![9u8; 40];
    footer[22..38].copy_from_slice(b"TRUEVISION-XFILE");
    assert_eq!(rozpoznaj_format(&footer), ImgExtTag::Tga);
    assert_eq!(rozpoznaj_format(b"hello"), ImgExtTag::Unknown);
    assert_eq!(rozpoznaj_format(&[]), ImgExtTag::Unknown);
}

#[test]
fn farbfeld_keeps_high_bytes() {
    let mut f = b"farbfeld".to_vec();
    f.extend_from_slice(&[0, 0, 0, 1, 0, 0, 0, 1]);
    f.extend_from_slice(&[0xAB, 0x01, 0xCD, 0x02, 0xEF, 0x03, 0x12, 0x04]);
    match ff(&f).unwrap() {
        DecodedImage::Rgba8(b) => {
            assert_eq!((b.width, b.height), (1, 1));
            assert_eq!(b.data, vec![0xAB, 0xCD, 0xEF, 0x12]);
        }
        other => panic!("unexpected {:?}", other),
    }
}

#[test]
fn farbfeld_errors() {
    let e = ff(b"notfarbfeld12345").unwrap_err();
    assert_eq!(e.kind, ImageErrorKind::Other);
    assert_eq!(e.message, "To nie jest poprawny plik Farbfeld");
    let mut f = b"farbfeld".to_vec();
    f.extend_from_slice(&[0, 0, 0, 2, 0, 0, 0, 1, 1, 2, 3]);
    assert_eq!(ff(&f).unwrap_err().message, "Plik Farbfeld jest ucięty");
}

#[test]
fn png_round_trip() {
    let bytes = encoded(rgb_2x1(), image::ImageFormat::Png);
    match png(&bytes).unwrap() {
        DecodedImage::Rgb8(b) => {
            assert_eq!((b.width, b.height), (2, 1));
            assert_eq!(b.data, vec![10, 20, 30, 40, 50, 60]);
        }
        other => panic!("unexpected {:?}", other),
    }
    let rgba = encoded(rgba_2x1(), image::ImageFormat::Png);
    assert!(matches!(png(&rgba).unwrap(), DecodedImage::Rgba8(_)));
}

#[test]
fn png_sixteen_bit_is_big_endian() {
    let img = image::DynamicImage::ImageLuma16(image::ImageBuffer::from_raw(1, 1, vec![0x1234u16]).unwrap());
    let bytes = encoded(img, image::ImageFormat::Png);
    match png(&bytes).unwrap() {
        DecodedImage::Luma16(b) => assert_eq!(b.data, vec![0x1234]),
        other => panic!("unexpected {:?}", other),
    }
}

#[test]
fn png_error_is_reported() {
    let e = png(&vec![0x89, 0x50, 0x4E, 0x47, 1, 2, 3]).unwrap_err();
    assert!(!e.message.is_empty());
}

#[test]
fn qoi_round_trip() {
    let bytes = encoded(rgba_2x1(), image::ImageFormat::Qoi);
    match qoi(&bytes).unwrap() {
        DecodedImage::Rgba8(b) => assert_eq!(b.data, vec![1, 2, 3, 4, 5, 6, 7, 8]),
        other => panic!("unexpected {:?}", other),
    }
}

#[test]
fn tga_round_trip() {
    let bytes = encoded(rgb_2x1(), image::ImageFormat::Tga);
    match tga(&bytes).unwrap() {
        DecodedImage::Rgb8(b) => {
            assert_eq!((b.width, b.height), (2, 1));
            assert_eq!(b.data, vec![10, 20, 30, 40, 50, 60]);
        }
        other => panic!("unexpected {:?}", other),
    }
}

#[test]
fn jpeg_gives_dimensions() {
    let bytes = encoded(rgb_2x1(), image::ImageFormat::Jpeg);
    match shop_backend::avif_image_handler::wczytywanie::jpg::jpeg(&bytes).unwrap() {
        DecodedImage::Rgb8(b) => {
            assert_eq!((b.width, b.height), (2, 1));
            assert_eq!(b.data.len(), 6);
        }
        other => panic!("unexpected {:?}", other),
    }
}

#[test]
fn webp_round_trip() {
    let bytes = encoded(rgba_2x1(), image::ImageFormat::WebP);
    match webp(&bytes).unwrap() {
        DecodedImage::Rgba8(b) => {
            assert_eq!((b.width, b.height), (2, 1));
            assert_eq!(b.data, vec![1, 2, 3, 4, 5, 6, 7, 8]);
        }
        other => panic!("unexpected {:?}", other),
    }
}

#[test]
fn webp_fallback_outcomes() {
    let e = webp_fallback(ForeignRead::Failed("zly".to_string())).unwrap_err();
    assert_eq!(e.message, "Błąd dekodowania klatki WebP: zly");
    let e = webp_fallback(ForeignRead::Layout("Rgb32F".to_string())).unwrap_err();
    assert_eq!(e.kind, ImageErrorKind::Unsupported);
    let frame = DecoderFrame { width: 1, height: 1, color_name: "La8".to_string(), pixels: vec![7, 8] };
    assert!(matches!(webp_fallback(ForeignRead::Frame(frame)).unwrap(), DecodedImage::LumaA8(_)));
    let deep = DecoderFrame16 { width: 1, height: 1, color_name: "Rgba16".to_string(), words: vec![1, 2, 3, 65535] };
    match webp_fallback(ForeignRead::Frame16(deep)).unwrap() {
        DecodedImage::Rgba16(b) => assert_eq!((b.width, b.height, b.data), (1, 1, vec![1, 2, 3, 65535])),
        other => panic!("{:?}", other),
    }
}

#[test]
fn guessed_sixteen_bit_images_are_kept() {
    let frame = DecoderFrame16 { width: 2, height: 1, color_name: "L16".to_string(), words: vec![300, 60000] };
    match unknown_read(ForeignRead::Frame16(frame)).unwrap() {
        DecodedImage::Luma16(b) => assert_eq!(b.data, vec![300, 60000]),
        other => panic!("{:?}", other),
    }
    let short = DecoderFrame16 { width: 2, height: 2, color_name: "La16".to_string(), words: vec![0; 7] };
    assert_eq!(unknown_read(ForeignRead::Frame16(short)).unwrap_err().message, "Błąd bufora obrazu La16");
    let e = unknown_read(ForeignRead::Layout("Rgb32F".to_string())).unwrap_err();
    assert_eq!((e.kind, e.message.as_str()), (ImageErrorKind::Unsupported, "Nieobsługiwany układ pikseli: Rgb32F"));
}

#[test]
fn unknown_format_is_unsupported() {
    let e = unknown(&b"nothing recognisable here".to_vec()).unwrap_err();
    assert_eq!(e.kind, ImageErrorKind::Unsupported);
    assert_eq!(e.message, "Nie rozpoznano formatu pliku (brak znanej sygnatury)");
    let e = unknown_read(ForeignRead::Failed("x".to_string())).unwrap_err();
    assert_eq!(e.kind, ImageErrorKind::Other);
}

#[test]
fn raw_buffers_are_checked() {
    assert!(from_raw8(Layout::Rgb8, 2, 2, vec![0; 11], "za malo").is_err());
    assert!(from_raw8(Layout::Rgb8, 2, 2, vec![0; 12], "za malo").is_ok());
    assert_eq!(from_raw8(Layout::Luma8, 3, 1, vec![0; 2], "za malo").unwrap_err().message, "za malo");
    assert_eq!(bytes_to_u16(&[0x12, 0x34, 0xAB]), vec![0x1234]);
}

#[test]
fn unpacking_by_extension() {
    let data = b"some image bytes".to_vec();
    assert_eq!(rozpakuj("png", data.clone()).unwrap(), data);
    let packed = zstd::encode_all(&data[..], 3).unwrap();
    assert_eq!(rozpakuj("zst", packed).unwrap(), data);
    let mut bz = bzip2::write::BzEncoder::new(Vec::new(), bzip2::Compression::default());
    bz.write_all(&data).unwrap();
    assert_eq!(rozpakuj("bz2", bz.finish().unwrap()).unwrap(), data);
    let mut xz = xz2::write::XzEncoder::new(Vec::new(), 6);
    xz.write_all(&data).unwrap();
    assert_eq!(rozpakuj("xz", xz.finish().unwrap()).unwrap(), data);
    assert_eq!(rozpakuj("zst", b"not zstd".to_vec()).unwrap_err().kind, ImageErrorKind::Other);
}

#[test]
fn loading_a_compressed_png() {
    let png_bytes = encoded(rgb_2x1(), image::ImageFormat::Png);
    let packed = zstd::encode_all(&png_bytes[..], 3).unwrap();
    let (w, name) = wczytaj_pliki(Some("stol_1".to_string()), Some("ZST".to_string()), packed).unwrap();
    assert_eq!(name, "stol_1");
    assert!(matches!(w, Wczytany::Obraz(DecodedImage::Rgb8(_))));
    let (_, name) = wczytaj_pliki(None, None, png_bytes).unwrap();
    assert_eq!(name, "nieznany");
}

#[test]
fn avif_and_exr_are_handed_back() {
    let avif = b"\0\0\0\x1cftypavif rest".to_vec();
    assert!(matches!(dekoduj(avif.clone()).unwrap(), Wczytany::Avif(b) if b == avif));
    let exr = vec![0x76, 0x2F, 0x31, 0x01, 2, 0, 0, 0, 0, 0, 0, 0];
    assert!(matches!(dekoduj(exr).unwrap(), Wczytany::Exr(_)));
}

#[test]
fn exr_channels_by_name() {
    let names: Vec<String> = ["A", "B", "G", "R", "B"].iter().map(|s| s.to_string()).collect();
    let plan = exr_channel_plan(&names).unwrap();
    assert_eq!((plan.r, plan.g, plan.b, plan.a), (3, 2, 4, Some(0)));
    let no_green: Vec<String> = ["R", "B"].iter().map(|s| s.to_string()).collect();
    assert_eq!(exr_channel_plan(&no_green).unwrap_err(), "Brak kanału G");
    let empty: Vec<String> = vec![];
    assert_eq!(exr_channel_plan(&empty).unwrap_err(), "Brak kanału R");
}

#[test]
fn avif_sizes_and_names() {
    assert_eq!(rozmiary(), vec![2048, 1024, 512, 256, 128, 64, 32, 16]);
    assert_eq!(nazwa_dodatkowa(512), "512");
    assert_eq!(nazwa_dodatkowa(100), "");
    assert_eq!(nazwa_pliku_avif("stol_1_2", 64), "stol_1_2_64.avif");
}

#[test]
fn planes_are_split_by_rows() {
    let raw: Vec<u8> = (1..=8).collect();
    let p = rozdziel_kanaly(&raw, 1, 2, 2);
    assert_eq!(p.r, vec![1, 0, 5, 0]);
    assert_eq!(p.g, vec![2, 0, 6, 0]);
    assert_eq!(p.b, vec![3, 0, 7, 0]);
    assert_eq!(p.a, vec![4, 0, 8, 0]);
    let short = rozdziel_kanaly(&raw[..4], 1, 2, 1);
    assert_eq!(short.a, vec![4, 0]);
}

#[test]
fn cmyk_becomes_rgb_as_in_floating_point() {
    for c in 0..=255u32 {
        for k in (0..=255u32).step_by(3) {
            let info = JpegInfo { width: 1, height: 1, format_name: "CMYK32".to_string() };
            let img = jpeg_frame_to_image(info, vec![c as u8, 0, 255, k as u8]).unwrap();
            let expected = |v: u32| {
                let (v, kk) = (v as f32 / 255.0, k as f32 / 255.0);
                (255.0 * (1.0 - v) * (1.0 - kk)).round() as u8
            };
            match img {
                DecodedImage::Rgb8(b) => assert_eq!(b.data, vec![expected(c), expected(0), expected(255)]),
                other => panic!("unexpected {:?}", other),
            }
        }
    }
}
