use lumawave::visualizer::palette_stops;

fn strings(v: &[&str]) -> Vec<String> {
    v.iter().map(|s| s.to_string()).collect()
}

#[test]
fn palette_uses_parsed_colors_in_order() {
    let stops = palette_stops(&strings(&["#FF0000", "junk", "#00FF00", "#0000FF"]));
    assert_eq!(stops, vec![[0xFF, 0, 0], [0, 0xFF, 0], [0, 0, 0xFF]]);
}

#[test]
fn invalid_palette_falls_back_to_default_gradient() {
    let stops = palette_stops(&strings(&["bad", "#12"]));
    assert_eq!(stops.len(), 5);
    assert_eq!(stops[0], [0xF8, 0xAF, 0xDB]);
    assert_eq!(stops[2], [0x87, 0xCE, 0xEB]);
    assert_eq!(stops[4], [0x00, 0xFF, 0xFF]);
    assert_eq!(palette_stops(&strings(&["#FFFFFF"])).len(), 5);
}
