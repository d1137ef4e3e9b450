use og_render::fonts::build_font_registry;
use og_render::pipeline::render_image;

fn empty_fonts() -> takumi::prelude::Fonts {
    takumi::prelude::Fonts::default()
}

fn png_dimensions(bytes: &[u8]) -> (u32, u32) {
    // A PNG starts with an 8-byte signature, then the IHDR chunk: 4 bytes of
    // length, the 4 bytes "IHDR", then big-endian width and height.
    assert!(bytes.len() >= 24, "png too short");
    assert_eq!(&bytes[0..8], &[137, 80, 78, 71, 13, 10, 26, 10], "png signature");
    assert_eq!(&bytes[12..16], b"IHDR");
    let w = u32::from_be_bytes([bytes[16], bytes[17], bytes[18], bytes[19]]);
    let h = u32::from_be_bytes([bytes[20], bytes[21], bytes[22], bytes[23]]);
    (w, h)
}

#[test]
fn container_renders_to_png_of_requested_size() {
    let fonts = empty_fonts();
    let out = render_image(&fonts, "{\"type\":\"container\"}", 200, 100, "png", -1);
    let bytes = out.expect("render should succeed");
    assert_eq!(png_dimensions(&bytes), (200, 100));
}

#[test]
fn zero_dimensions_clamp_to_one_pixel() {
    let fonts = empty_fonts();
    let out = render_image(&fonts, "{\"type\":\"container\"}", 0, 0, "png", -1);
    let bytes = out.expect("zero dimensions must not fail");
    assert_eq!(png_dimensions(&bytes), (1, 1));

    let out = render_image(&fonts, "{\"type\":\"container\"}", -7, 33, "png", -1);
    let bytes = out.expect("negative width must not fail");
    assert_eq!(png_dimensions(&bytes), (1, 33));
}

#[test]
fn png_output_is_deterministic_across_calls() {
    let fonts = empty_fonts();
    let json = "{\"type\":\"container\",\"style\":{\"backgroundColor\":\"#336699\"}}";
    let a = render_image(&fonts, json, 64, 48, "png", -1).expect("first render");
    let b = render_image(&fonts, json, 64, 48, "png", -1).expect("second render");
    assert_eq!(a, b);
}

#[test]
fn format_casing_does_not_change_the_bytes() {
    let fonts = empty_fonts();
    let json = "{\"type\":\"container\",\"style\":{\"backgroundColor\":\"#abcdef\"}}";
    let a = render_image(&fonts, json, 40, 40, "png", -1).expect("png");
    let b = render_image(&fonts, json, 40, 40, "PNG", -1).expect("PNG");
    let c = render_image(&fonts, json, 40, 40, "Png", -1).expect("Png");
    assert_eq!(a, b);
    assert_eq!(a, c);
}

#[test]
fn out_of_range_quality_matches_explicit_default() {
    let fonts = empty_fonts();
    let json = "{\"type\":\"container\",\"style\":{\"backgroundColor\":\"#884422\"}}";
    let over = render_image(&fonts, json, 32, 32, "jpeg", 150).expect("quality 150");
    let under = render_image(&fonts, json, 32, 32, "jpeg", -3).expect("quality -3");
    let explicit = render_image(&fonts, json, 32, 32, "jpeg", 75).expect("quality 75");
    assert_eq!(over, explicit);
    assert_eq!(under, explicit);
}

#[test]
fn jpeg_quality_reaches_the_encoder() {
    let fonts = empty_fonts();
    let json = "{\"type\":\"container\",\"style\":{\"backgroundColor\":\"#884422\"}}";
    let low = render_image(&fonts, json, 32, 32, "jpeg", 1).expect("quality 1");
    let high = render_image(&fonts, json, 32, 32, "jpeg", 100).expect("quality 100");
    assert_ne!(low, high, "quality must influence the jpeg bitstream");
    // A JPEG stream starts with the SOI marker.
    assert_eq!(&low[0..2], &[0xFF, 0xD8]);
    assert_eq!(&high[0..2], &[0xFF, 0xD8]);
}

#[test]
fn jpg_is_an_alias_for_jpeg() {
    let fonts = empty_fonts();
    let json = "{\"type\":\"container\"}";
    let a = render_image(&fonts, json, 16, 16, "jpg", 80).expect("jpg");
    let b = render_image(&fonts, json, 16, 16, "jpeg", 80).expect("jpeg");
    assert_eq!(a, b);
}

#[test]
fn webp_renders_a_riff_container() {
    let fonts = empty_fonts();
    let out = render_image(&fonts, "{\"type\":\"container\"}", 24, 24, "webp", 80);
    let bytes = out.expect("webp render should succeed");
    assert_eq!(&bytes[0..4], b"RIFF");
    assert_eq!(&bytes[8..12], b"WEBP");
}

#[test]
fn unrecognized_format_yields_unsupported_format_and_no_bytes() {
    let fonts = empty_fonts();
    let out = render_image(&fonts, "{\"type\":\"container\"}", 100, 100, "bmp", -1);
    match out {
        Ok(_) => panic!("bmp must not produce bytes"),
        Err(e) => {
            assert_eq!(e.stage(), "UnsupportedFormatError");
            assert_eq!(e.message(), "bmp");
        }
    }
}

#[test]
fn malformed_tree_yields_input_parse_and_later_calls_are_unaffected() {
    let fonts = empty_fonts();
    let out = render_image(&fonts, "{\"type\":\"nonsense\"", 50, 50, "png", -1);
    match out {
        Ok(_) => panic!("malformed tree must not render"),
        Err(e) => assert_eq!(e.stage(), "InputParseError"),
    }
    // The registry and subsequent calls are unaffected by the failure.
    let ok = render_image(&fonts, "{\"type\":\"container\"}", 50, 50, "png", -1);
    let bytes = ok.expect("a later valid call must succeed");
    assert_eq!(png_dimensions(&bytes), (50, 50));
}

#[test]
fn nested_containers_stay_inside_the_viewport() {
    let fonts = empty_fonts();
    let json = "{\"type\":\"container\",\"children\":[\
        {\"type\":\"container\",\"style\":{\"width\":500,\"height\":400,\"backgroundColor\":\"#ff0000\"}},\
        {\"type\":\"container\",\"style\":{\"width\":300,\"height\":200,\"backgroundColor\":\"#00ff00\"}}]}";
    let bytes = render_image(&fonts, json, 120, 80, "png", -1).expect("overflowing children");
    assert_eq!(png_dimensions(&bytes), (120, 80));
}

#[test]
fn text_node_renders_at_requested_size_and_deterministically() {
    let fonts = empty_fonts();
    let json = "{\"type\":\"text\",\"text\":\"hello\"}";
    let a = render_image(&fonts, json, 200, 100, "png", -1).expect("text render");
    assert_eq!(png_dimensions(&a), (200, 100));
    let b = render_image(&fonts, json, 200, 100, "png", -1).expect("repeated text render");
    assert_eq!(a, b);
}

#[test]
fn image_node_with_unresolvable_source_still_fills_the_viewport() {
    let fonts = empty_fonts();
    let json = "{\"type\":\"image\",\"src\":\"data:image/png;base64,!!!!\"}";
    let bytes = render_image(&fonts, json, 60, 60, "png", -1)
        .expect("an unresolvable image source is skipped, not fatal");
    assert_eq!(png_dimensions(&bytes), (60, 60));
}

#[test]
fn overflowing_text_children_never_grow_the_canvas() {
    let fonts = empty_fonts();
    let json = "{\"type\":\"container\",\"children\":[\
        {\"type\":\"text\",\"text\":\"a long first run of text that will not fit\"},\
        {\"type\":\"text\",\"text\":\"and a second run that certainly overflows\"}]}";
    let bytes = render_image(&fonts, json, 80, 40, "png", -1).expect("overflowing text");
    assert_eq!(png_dimensions(&bytes), (80, 40));
}

#[test]
fn invalid_font_bytes_yield_font_load_error() {
    let junk = vec![1u8, 2, 3, 4, 5, 6, 7, 8];
    let out = build_font_registry(&junk, &junk, &junk);
    match out {
        Ok(_) => panic!("junk bytes must not register as a font"),
        Err(e) => assert_eq!(e.stage(), "FontLoadError"),
    }
}
