use lumawave::config::parse_hex_color;

#[test]
fn hex_color_parsing() {
    assert_eq!(parse_hex_color("#F8AFDB"), Some([0xF8, 0xAF, 0xDB]));
    assert_eq!(parse_hex_color("00FFFF"), Some([0x00, 0xFF, 0xFF]));
    assert_eq!(parse_hex_color("#12345"), None);
    assert_eq!(parse_hex_color("#GGGGGG"), None);
    assert_eq!(parse_hex_color(""), None);
}

use lumawave::config::settings::{
    default_colors, default_palette, live_colors, sanitized_colors, sanitized_palette,
};
use lumawave::config::{PaletteStop, SliderParam, SpectrumCounts, ToggleParam, WindowKind};
use lumawave::config::params::sanitized_preset;

fn strings(v: &[&str]) -> Vec<String> {
    v.iter().map(|s| s.to_string()).collect()
}

#[test]
fn hex_color_parsing_trims_and_strips_hashes() {
    assert_eq!(parse_hex_color("  #87ceeb\t"), Some([0x87, 0xCE, 0xEB]));
    assert_eq!(parse_hex_color("##00ff7f"), Some([0x00, 0xFF, 0x7F]));
    assert_eq!(parse_hex_color("\u{3000}#D8BFDB\u{A0}"), Some([0xD8, 0xBF, 0xDB]));
    assert_eq!(parse_hex_color("# 123456"), None);
    assert_eq!(parse_hex_color("#1234567"), None);
    assert_eq!(parse_hex_color("#12345é"), None);
    assert_eq!(parse_hex_color("+12345"), None);
}

#[test]
fn sanitize_bad_colors_falls_back_to_default() {
    let t = sanitized_colors(&strings(&["nope", "#12345"]));
    assert_eq!(t.len(), 5);
    assert!(t.iter().all(|c| parse_hex_color(c).is_some()));
    assert_eq!(t, default_colors());
}

#[test]
fn sanitize_keeps_valid_colors_in_order() {
    let t = sanitized_colors(&strings(&["#FF0000", "bad", "00ff00", "#0000FF"]));
    assert_eq!(t, strings(&["#FF0000", "00ff00", "#0000FF"]));
    assert_eq!(sanitized_colors(&t), t, "sanitising twice changes nothing");
    let single = sanitized_colors(&strings(&["#FF0000", "bad"]));
    assert_eq!(single, default_colors(), "one valid colour is not a gradient");
}

#[test]
fn default_colors_are_the_five_stop_gradient() {
    assert_eq!(
        default_colors(),
        strings(&["#F8AFDB", "#F8A3C8", "#87CEEB", "#D8BFDB", "#00FFFF"])
    );
    let palette = default_palette();
    assert_eq!(palette.len(), 5);
    assert!(palette.iter().all(|s| s.enabled));
    assert_eq!(palette[2].hex, "#87CEEB");
}

fn stop(enabled: bool, hex: &str) -> PaletteStop {
    PaletteStop { enabled, hex: hex.to_string() }
}

#[test]
fn sanitize_palette_filters_and_falls_back() {
    let kept = sanitized_palette(vec![stop(false, "#010203"), stop(true, "x"), stop(true, "#0A0B0C")]);
    assert_eq!(kept.len(), 2);
    assert!(!kept[0].enabled && kept[0].hex == "#010203");
    assert!(kept[1].enabled && kept[1].hex == "#0A0B0C");
    let fallback = sanitized_palette(vec![stop(true, "#010203"), stop(true, "nope")]);
    assert_eq!(fallback.len(), 5);
    assert!(fallback.iter().all(|s| s.enabled && parse_hex_color(&s.hex).is_some()));
}

#[test]
fn live_colors_prefer_enabled_palette_slots() {
    let fallback = strings(&["#111111", "#222222"]);
    let two = vec![stop(true, "#AAAAAA"), stop(false, "#BBBBBB"), stop(true, "#CCCCCC")];
    assert_eq!(live_colors(&two, &fallback), strings(&["#AAAAAA", "#CCCCCC"]));
    let one = vec![stop(true, "#AAAAAA"), stop(false, "#BBBBBB")];
    assert_eq!(live_colors(&one, &fallback), fallback);
}

#[test]
fn slider_and_toggle_names_in_both_spellings() {
    assert_eq!(SliderParam::from_name("master-opacity"), Some(SliderParam::MasterOpacity));
    assert_eq!(SliderParam::from_name("master_opacity"), Some(SliderParam::MasterOpacity));
    assert_eq!(SliderParam::from_name("bar-count"), Some(SliderParam::BarCount));
    assert_eq!(SliderParam::from_name("bar_width"), Some(SliderParam::BarWidth));
    assert_eq!(SliderParam::from_name("bar-radius"), Some(SliderParam::BarRadius));
    assert_eq!(SliderParam::from_name("bar_gain"), Some(SliderParam::BarGain));
    assert_eq!(SliderParam::from_name("peak-gain"), Some(SliderParam::PeakGain));
    assert_eq!(SliderParam::from_name("peak_amplitude"), Some(SliderParam::PeakAmplitude));
    assert_eq!(SliderParam::from_name("smoothing"), Some(SliderParam::Smoothing));
    assert_eq!(SliderParam::from_name("Smoothing"), None);
    assert_eq!(SliderParam::from_name("volume"), None);
    assert_eq!(ToggleParam::from_name("enable-reflection"), Some(ToggleParam::EnableReflection));
    assert_eq!(ToggleParam::from_name("enable_peak_line"), Some(ToggleParam::EnablePeakLine));
    assert_eq!(ToggleParam::from_name("enable-peak"), None);
}

#[test]
fn spectrum_counts_are_clamped() {
    let t = SpectrumCounts { bar_count: 9999, fft_size: 1234, fps: 3 }.sanitized();
    assert_eq!(t, SpectrumCounts { bar_count: 192, fft_size: 2048, fps: 15 });
    let low = SpectrumCounts { bar_count: 2, fft_size: 4096, fps: 500 }.sanitized();
    assert_eq!(low, SpectrumCounts { bar_count: 16, fft_size: 4096, fps: 120 });
    let ok = SpectrumCounts { bar_count: 88, fft_size: 1024, fps: 40 }.sanitized();
    assert_eq!(ok, SpectrumCounts { bar_count: 88, fft_size: 1024, fps: 40 });
    assert_eq!(sanitized_preset(-3), 0);
    assert_eq!(sanitized_preset(9), 5);
    assert_eq!(sanitized_preset(3), 3);
    assert_ne!(WindowKind::Hann, WindowKind::Blackman);
}

#[test]
fn sanitizing_counts_twice_changes_nothing_more() {
    for c in [
        SpectrumCounts { bar_count: 0, fft_size: 0, fps: 0 },
        SpectrumCounts { bar_count: usize::MAX, fft_size: 8192, fps: u32::MAX },
        SpectrumCounts { bar_count: 100, fft_size: 2048, fps: 60 },
    ] {
        let once = c.sanitized();
        assert_eq!(once.sanitized(), once);
    }
    assert_eq!(sanitized_preset(sanitized_preset(i32::MIN)), sanitized_preset(i32::MIN));
}
