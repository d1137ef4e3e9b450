use og_render::format::ImageFormat;
use og_render::geometry::PixelBuffer;
use og_render::pipeline::{encode_buffer, parse_tree, render_buffer};

fn buffer_2x2() -> PixelBuffer {
    PixelBuffer {
        width: 2,
        height: 2,
        data: vec![
            255, 0, 0, 255, // red
            0, 255, 0, 255, // green
            0, 0, 255, 255, // blue
            255, 255, 0, 255, // yellow
        ],
    }
}

#[test]
fn png_encoding_of_equal_buffers_is_byte_identical() {
    let a = encode_buffer(buffer_2x2(), ImageFormat::Png, 0).expect("png encode");
    let b = encode_buffer(buffer_2x2(), ImageFormat::Png, 0).expect("png encode again");
    assert_eq!(a, b);
    assert_eq!(&a[0..8], &[137, 80, 78, 71, 13, 10, 26, 10]);
    let w = u32::from_be_bytes([a[16], a[17], a[18], a[19]]);
    let h = u32::from_be_bytes([a[20], a[21], a[22], a[23]]);
    assert_eq!((w, h), (2, 2));
}

#[test]
fn png_encoding_ignores_the_quality_value() {
    let a = encode_buffer(buffer_2x2(), ImageFormat::Png, 0).expect("png at 0");
    let b = encode_buffer(buffer_2x2(), ImageFormat::Png, 100).expect("png at 100");
    assert_eq!(a, b);
}

#[test]
fn jpeg_quality_changes_the_encoding() {
    let low = encode_buffer(buffer_2x2(), ImageFormat::Jpeg, 1).expect("jpeg at 1");
    let high = encode_buffer(buffer_2x2(), ImageFormat::Jpeg, 100).expect("jpeg at 100");
    assert_ne!(low, high);
}

#[test]
fn webp_encoding_emits_a_riff_container() {
    let bytes = encode_buffer(buffer_2x2(), ImageFormat::WebP, 80).expect("webp encode");
    assert_eq!(&bytes[0..4], b"RIFF");
    assert_eq!(&bytes[8..12], b"WEBP");
}

#[test]
fn parse_tree_accepts_the_node_schema_and_rejects_other_text() {
    assert!(parse_tree("{\"type\":\"container\"}").is_ok());
    assert!(parse_tree("{\"type\":\"text\",\"text\":\"hi\"}").is_ok());
    match parse_tree("not json at all") {
        Ok(_) => panic!("free text is not a tree description"),
        Err(e) => assert_eq!(e.stage(), "InputParseError"),
    }
    match parse_tree("{\"type\":\"window\"}") {
        Ok(_) => panic!("an unknown node type is not accepted"),
        Err(e) => assert_eq!(e.stage(), "InputParseError"),
    }
}

#[test]
fn render_buffer_fills_exactly_the_viewport() {
    let fonts = takumi::prelude::Fonts::default();
    let node = parse_tree("{\"type\":\"container\"}").expect("container");
    let buf = render_buffer(&fonts, node, 30, 20).expect("render");
    assert_eq!(buf.width, 30);
    assert_eq!(buf.height, 20);
    assert_eq!(buf.data.len(), 4 * 30 * 20);
}
