use color_palette::{
    admit_image, colors_from_samples, format_color, format_palette, load_pixels, notation_from_name,
    parse_notation, render_palette, AlphaMode, Notation, PaletteError, RgbColor,
};
use image::{DynamicImage, ImageBuffer, ImageFormat, Rgb, Rgba};
use std::io::Cursor;

fn png_bytes(img: DynamicImage) -> Vec<u8> {
    let mut c = Cursor::new(Vec::new());
    img.write_to(&mut c, ImageFormat::Png).unwrap();
    c.into_inner()
}

fn rgb_png(w: u32, h: u32, pixels: &[(u8, u8, u8)]) -> Vec<u8> {
    let mut buf = ImageBuffer::new(w, h);
    for (i, p) in buf.pixels_mut().enumerate() {
        let (r, g, b) = pixels[i];
        *p = Rgb([r, g, b]);
    }
    png_bytes(DynamicImage::ImageRgb8(buf))
}

fn rgba_png(w: u32, h: u32, px: [u8; 4]) -> Vec<u8> {
    let buf = ImageBuffer::from_pixel(w, h, Rgba(px));
    png_bytes(DynamicImage::ImageRgba8(buf))
}

fn quantize(samples: &[u8], has_alpha: bool) -> Vec<u8> {
    dominant_color::get_colors_with_config(samples, has_alpha, 244.0 * 244.0, 0.0)
}

fn is_hex_shaped(s: &str) -> bool {
    s.len() == 7
        && s.starts_with('#')
        && s[1..].chars().all(|c| c.is_ascii_digit() || ('a'..='f').contains(&c))
}

#[test]
fn rgb_text_has_no_padding_or_spaces() {
    assert_eq!(RgbColor { r: 255, g: 0, b: 0 }.to_string(), "rgb(255,0,0)");
    assert_eq!(RgbColor { r: 7, g: 40, b: 100 }.to_string(), "rgb(7,40,100)");
    assert_eq!(RgbColor { r: 0, g: 9, b: 10 }.to_string(), "rgb(0,9,10)");
}

#[test]
fn samples_split_into_colors_by_three() {
    let c = colors_from_samples(&[255, 0, 0, 0, 255, 0, 9], false);
    assert_eq!(c, vec![RgbColor { r: 255, g: 0, b: 0 }, RgbColor { r: 0, g: 255, b: 0 }]);
}

#[test]
fn samples_split_into_colors_skipping_alpha() {
    let c = colors_from_samples(&[1, 2, 3, 255, 4, 5, 6, 255], true);
    assert_eq!(c, vec![RgbColor { r: 1, g: 2, b: 3 }, RgbColor { r: 4, g: 5, b: 6 }]);
}

#[test]
fn notation_names_are_read_ignoring_case() {
    assert_eq!(parse_notation(None), Notation::Hex);
    assert_eq!(parse_notation(Some("CMYK".to_string())), Notation::Cmyk);
    assert_eq!(parse_notation(Some("Rgb".to_string())), Notation::Rgb);
    assert_eq!(parse_notation(Some("hsl".to_string())), Notation::Hsl);
    assert_eq!(parse_notation(Some("hex".to_string())), Notation::Hex);
    assert_eq!(notation_from_name("rgb"), Notation::Rgb);
    assert_eq!(notation_from_name("RGB"), Notation::Hex);
}

#[test]
fn unknown_notation_renders_as_hex() {
    assert_eq!(parse_notation(Some("pantone".to_string())), Notation::Hex);
    let q = [255, 0, 0, 0, 128, 255];
    assert_eq!(
        render_palette(&q, false, Some("pantone".to_string())),
        render_palette(&q, false, Some("hex".to_string()))
    );
}

#[test]
fn hex_of_pure_colors() {
    assert_eq!(format_color(&RgbColor { r: 255, g: 0, b: 0 }, Notation::Hex), "#ff0000");
    assert_eq!(format_color(&RgbColor { r: 0, g: 0, b: 0 }, Notation::Hex), "#000000");
    assert_eq!(format_color(&RgbColor { r: 255, g: 255, b: 255 }, Notation::Hex), "#ffffff");
}

#[test]
fn hex_is_always_hash_and_six_digits() {
    for v in [0u8, 1, 17, 100, 128, 200, 254, 255] {
        let s = format_color(&RgbColor { r: v, g: 255 - v, b: v / 2 }, Notation::Hex);
        assert!(is_hex_shaped(&s), "{}", s);
    }
}

#[test]
fn cmyk_of_black_is_pure_key() {
    assert_eq!(format_color(&RgbColor { r: 0, g: 0, b: 0 }, Notation::Cmyk), "cmyk(0,0,0,1)");
    assert_eq!(render_palette(&[0, 0, 0], false, Some("CMYK".to_string())), vec!["cmyk(0,0,0,1)"]);
}

#[test]
fn cmyk_of_red() {
    assert_eq!(format_color(&RgbColor { r: 255, g: 0, b: 0 }, Notation::Cmyk), "cmyk(0,1,1,0)");
}

#[test]
fn hsl_of_red() {
    assert_eq!(format_color(&RgbColor { r: 255, g: 0, b: 0 }, Notation::Hsl), "hsl(0,100%,50%)");
}

#[test]
fn hsl_of_gray_has_no_saturation() {
    let s = format_color(&RgbColor { r: 128, g: 128, b: 128 }, Notation::Hsl);
    assert!(s.starts_with("hsl(0,0,"), "{}", s);
}

#[test]
fn rgb_notation_is_decimal_channels() {
    assert_eq!(format_color(&RgbColor { r: 0, g: 0, b: 0 }, Notation::Rgb), "rgb(0,0,0)");
    assert_eq!(format_color(&RgbColor { r: 255, g: 0, b: 0 }, Notation::Rgb), "rgb(255,0,0)");
    assert_eq!(format_color(&RgbColor { r: 12, g: 200, b: 7 }, Notation::Rgb), "rgb(12,200,7)");
}

#[test]
fn hex_reads_back_to_the_channels() {
    assert_eq!(format_color(&RgbColor { r: 2, g: 0, b: 0 }, Notation::Hex), "#020000");
    assert_eq!(format_color(&RgbColor { r: 1, g: 171, b: 16 }, Notation::Hex), "#01ab10");
    for r in 0..=255u8 {
        let c = RgbColor { r, g: 255 - r, b: r / 3 };
        let s = format_color(&c, Notation::Hex);
        assert!(is_hex_shaped(&s), "{}", s);
        let back = (
            u8::from_str_radix(&s[1..3], 16).unwrap(),
            u8::from_str_radix(&s[3..5], 16).unwrap(),
            u8::from_str_radix(&s[5..7], 16).unwrap(),
        );
        assert_eq!(back, (c.r, c.g, c.b));
    }
}

#[test]
fn palette_keeps_order() {
    let out = format_palette(&[255, 0, 0, 0, 0, 0], false, Notation::Hex);
    assert_eq!(out, vec!["#ff0000", "#000000"]);
}

#[test]
fn empty_quantizer_output_gives_empty_palette() {
    assert!(render_palette(&[], false, None).is_empty());
    assert!(render_palette(&[], true, Some("hsl".to_string())).is_empty());
    assert!(quantize(&[], false).is_empty());
}

#[test]
fn alpha_admission_policy() {
    assert!(matches!(admit_image(true, AlphaMode::Strict), Err(PaletteError::UnsupportedImageKind)));
    assert!(matches!(admit_image(true, AlphaMode::Permissive), Ok(())));
    assert!(matches!(admit_image(false, AlphaMode::Strict), Ok(())));
    assert!(matches!(admit_image(false, AlphaMode::Permissive), Ok(())));
}

#[test]
fn garbage_bytes_fail_to_decode() {
    assert!(matches!(load_pixels(&[1, 2, 3, 4], AlphaMode::Strict), Err(PaletteError::DecodeError(_))));
    assert!(matches!(load_pixels(&[], AlphaMode::Permissive), Err(PaletteError::DecodeError(_))));
}

#[test]
fn image_with_alpha_is_refused_when_strict() {
    let bytes = rgba_png(2, 2, [10, 20, 30, 128]);
    assert!(matches!(load_pixels(&bytes, AlphaMode::Strict), Err(PaletteError::UnsupportedImageKind)));
    let buf = load_pixels(&bytes, AlphaMode::Permissive).unwrap();
    assert!(!buf.has_alpha);
    assert_eq!(buf.samples, vec![10, 20, 30, 10, 20, 30, 10, 20, 30, 10, 20, 30]);
}

#[test]
fn permissive_alpha_image_matches_image_without_alpha() {
    let with_alpha = rgba_png(2, 2, [10, 20, 30, 7]);
    let without = rgb_png(2, 2, &[(10, 20, 30); 4]);
    let a = load_pixels(&with_alpha, AlphaMode::Permissive).unwrap();
    let b = load_pixels(&without, AlphaMode::Strict).unwrap();
    assert_eq!(a.samples, b.samples);
    assert_eq!(a.has_alpha, b.has_alpha);
    let pa = render_palette(&quantize(&a.samples, a.has_alpha), a.has_alpha, Some("rgb".to_string()));
    let pb = render_palette(&quantize(&b.samples, b.has_alpha), b.has_alpha, Some("rgb".to_string()));
    assert_eq!(pa, vec!["rgb(10,20,30)"]);
    assert_eq!(pa, pb);
}

#[test]
fn decoded_pixels_pass_through_unchanged() {
    let px = [(1, 2, 3), (4, 5, 6), (7, 8, 9), (250, 251, 252), (0, 0, 0), (255, 255, 255)];
    let buf = load_pixels(&rgb_png(3, 2, &px), AlphaMode::Strict).unwrap();
    assert_eq!(buf.samples, vec![1, 2, 3, 4, 5, 6, 7, 8, 9, 250, 251, 252, 0, 0, 0, 255, 255, 255]);
}

#[test]
fn gif_bytes_are_not_decoded() {
    let gif: Vec<u8> = vec![
        b'G', b'I', b'F', b'8', b'9', b'a', 1, 0, 1, 0, 0, 0, 0, b',', 0, 0, 0, 0, 2, 0, 2, 0, 0, 2, 2, 0x44, 0x01, 0,
        b';',
    ];
    assert!(matches!(load_pixels(&gif, AlphaMode::Permissive), Err(PaletteError::DecodeError(_))));
}

#[test]
fn uniform_image_gives_one_color() {
    let bytes = rgb_png(3, 2, &[(255, 0, 0); 6]);
    let buf = load_pixels(&bytes, AlphaMode::Strict).unwrap();
    assert!(!buf.has_alpha);
    assert_eq!(buf.samples.len(), 18);
    let q = quantize(&buf.samples, false);
    assert_eq!(render_palette(&q, false, None), vec!["#ff0000"]);
    assert_eq!(render_palette(&q, false, Some("cmyk".to_string())), vec!["cmyk(0,1,1,0)"]);
    assert_eq!(render_palette(&q, false, Some("RGB".to_string())), vec!["rgb(255,0,0)"]);
}

#[test]
fn two_by_two_image_gives_three_clusters_red_first() {
    let bytes = rgb_png(2, 2, &[(255, 0, 0), (255, 0, 0), (0, 255, 0), (0, 0, 255)]);
    let buf = load_pixels(&bytes, AlphaMode::Strict).unwrap();
    let colors = colors_from_samples(&quantize(&buf.samples, false), false);
    assert_eq!(colors.len(), 3);
    assert_eq!(colors[0], RgbColor { r: 255, g: 0, b: 0 });
    assert!(colors.contains(&RgbColor { r: 0, g: 255, b: 0 }));
    assert!(colors.contains(&RgbColor { r: 0, g: 0, b: 255 }));
    let texts = render_palette(&quantize(&buf.samples, false), false, Some("rgb".to_string()));
    assert_eq!(texts[0], "rgb(255,0,0)");
    assert!(texts.contains(&"rgb(0,255,0)".to_string()));
    assert!(texts.contains(&"rgb(0,0,255)".to_string()));
}
