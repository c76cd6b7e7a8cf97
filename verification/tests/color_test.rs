use lumawave::config::color::{color_or_white, format_hex_color};
use lumawave::config::parse_hex_color;

#[test]
fn colors_format_as_upper_case_hex() {
    assert_eq!(format_hex_color([0xF8, 0xAF, 0xDB]), "#F8AFDB");
    assert_eq!(format_hex_color([0, 0xff, 0x0a]), "#00FF0A");
    assert_eq!(format_hex_color([0, 0, 0]), "#000000");
}

#[test]
fn formatted_colors_parse_back() {
    for rgb in [[0u8, 0, 0], [255, 255, 255], [0x12, 0x34, 0x56], [0xab, 0xcd, 0xef]] {
        assert_eq!(parse_hex_color(&format_hex_color(rgb)), Some(rgb));
    }
}

#[test]
fn unparsable_colors_become_white() {
    assert_eq!(color_or_white("#87CEEB"), [0x87, 0xCE, 0xEB]);
    assert_eq!(color_or_white("nope"), [255, 255, 255]);
    assert_eq!(color_or_white("#12345"), [255, 255, 255]);
}
