//! Names of the live settings the panel adjusts, and the integer settings'
//! valid ranges.
//!
//! The panel reports slider and toggle changes by name, in the panel's
//! kebab-case or the configuration's snake_case; unknown names are ignored.

use crate::config::color::{chars_of, spells};
use vstd::prelude::*;

verus! {

/// A slider of the settings panel.
#[derive(Debug, Clone, Copy, PartialEq, Eq, Structural)]
pub enum SliderParam {
    MasterOpacity,
    BarCount,
    BarWidth,
    BarRadius,
    BarGain,
    PeakGain,
    PeakAmplitude,
    Smoothing,
}

/// An on/off switch of the settings panel.
#[derive(Debug, Clone, Copy, PartialEq, Eq, Structural)]
pub enum ToggleParam {
    EnableReflection,
    EnablePeakLine,
}

/// Slider a name refers to.
pub open spec fn spec_slider_from_name(name: Seq<char>) -> Option<SliderParam> {
    if name == "master-opacity"@ || name == "master_opacity"@ {
        Some(SliderParam::MasterOpacity)
    } else if name == "bar-count"@ || name == "bar_count"@ {
        Some(SliderParam::BarCount)
    } else if name == "bar-width"@ || name == "bar_width"@ {
        Some(SliderParam::BarWidth)
    } else if name == "bar-radius"@ || name == "bar_radius"@ {
        Some(SliderParam::BarRadius)
    } else if name == "bar-gain"@ || name == "bar_gain"@ {
        Some(SliderParam::BarGain)
    } else if name == "peak-gain"@ || name == "peak_gain"@ {
        Some(SliderParam::PeakGain)
    } else if name == "peak-amplitude"@ || name == "peak_amplitude"@ {
        Some(SliderParam::PeakAmplitude)
    } else if name == "smoothing"@ {
        Some(SliderParam::Smoothing)
    } else {
        None
    }
}

/// Switch a name refers to.
pub open spec fn spec_toggle_from_name(name: Seq<char>) -> Option<ToggleParam> {
    if name == "enable-reflection"@ || name == "enable_reflection"@ {
        Some(ToggleParam::EnableReflection)
    } else if name == "enable-peak-line"@ || name == "enable_peak_line"@ {
        Some(ToggleParam::EnablePeakLine)
    } else {
        None
    }
}

impl SliderParam {
    /// The slider called `name`, if any.
    pub fn from_name(name: &str) -> (p: Option<SliderParam>)
        ensures
            p == spec_slider_from_name(name@),
    {
        let n = chars_of(name);
        if spells(&n, "master-opacity") || spells(&n, "master_opacity") {
            Some(SliderParam::MasterOpacity)
        } else if spells(&n, "bar-count") || spells(&n, "bar_count") {
            Some(SliderParam::BarCount)
        } else if spells(&n, "bar-width") || spells(&n, "bar_width") {
            Some(SliderParam::BarWidth)
        } else if spells(&n, "bar-radius") || spells(&n, "bar_radius") {
            Some(SliderParam::BarRadius)
        } else if spells(&n, "bar-gain") || spells(&n, "bar_gain") {
            Some(SliderParam::BarGain)
        } else if spells(&n, "peak-gain") || spells(&n, "peak_gain") {
            Some(SliderParam::PeakGain)
        } else if spells(&n, "peak-amplitude") || spells(&n, "peak_amplitude") {
            Some(SliderParam::PeakAmplitude)
        } else if spells(&n, "smoothing") {
            Some(SliderParam::Smoothing)
        } else {
            None
        }
    }
}

impl ToggleParam {
    /// The switch called `name`, if any.
    pub fn from_name(name: &str) -> (p: Option<ToggleParam>)
        ensures
            p == spec_toggle_from_name(name@),
    {
        let n = chars_of(name);
        if spells(&n, "enable-reflection") || spells(&n, "enable_reflection") {
            Some(ToggleParam::EnableReflection)
        } else if spells(&n, "enable-peak-line") || spells(&n, "enable_peak_line") {
            Some(ToggleParam::EnablePeakLine)
        } else {
            None
        }
    }
}

/// Name the settings panel reports a slider by (kebab-case).
pub open spec fn slider_panel_name(p: SliderParam) -> Seq<char> {
    match p {
        SliderParam::MasterOpacity => "master-opacity"@,
        SliderParam::BarCount => "bar-count"@,
        SliderParam::BarWidth => "bar-width"@,
        SliderParam::BarRadius => "bar-radius"@,
        SliderParam::BarGain => "bar-gain"@,
        SliderParam::PeakGain => "peak-gain"@,
        SliderParam::PeakAmplitude => "peak-amplitude"@,
        SliderParam::Smoothing => "smoothing"@,
    }
}

/// Name the settings panel reports a switch by (kebab-case).
pub open spec fn toggle_panel_name(p: ToggleParam) -> Seq<char> {
    match p {
        ToggleParam::EnableReflection => "enable-reflection"@,
        ToggleParam::EnablePeakLine => "enable-peak-line"@,
    }
}

/// The snake_case spelling of a name: every `-` becomes `_`.
pub open spec fn snake_case(name: Seq<char>) -> Seq<char> {
    name.map_values(|c: char| if c == '-' { '_' } else { c })
}

/// Every slider is found by its panel name and by the snake_case spelling
/// of that name, and both give that slider.
pub proof fn law_slider_names_in_both_spellings(p: SliderParam)
    ensures
        spec_slider_from_name(slider_panel_name(p)) == Some(p),
        spec_slider_from_name(snake_case(slider_panel_name(p))) == Some(p),
{
    reveal_strlit("bar-count");
    reveal_strlit("bar-gain");
    reveal_strlit("bar-radius");
    reveal_strlit("bar-width");
    reveal_strlit("bar_count");
    reveal_strlit("bar_gain");
    reveal_strlit("bar_radius");
    reveal_strlit("bar_width");
    reveal_strlit("enable-peak-line");
    reveal_strlit("enable-reflection");
    reveal_strlit("enable_peak_line");
    reveal_strlit("enable_reflection");
    reveal_strlit("master-opacity");
    reveal_strlit("master_opacity");
    reveal_strlit("peak-amplitude");
    reveal_strlit("peak-gain");
    reveal_strlit("peak_amplitude");
    reveal_strlit("peak_gain");
    reveal_strlit("smoothing");
    match p {
        SliderParam::MasterOpacity => {
            assert(snake_case("master-opacity"@) =~= "master_opacity"@);
        },
        SliderParam::BarCount => {
            assert(snake_case("bar-count"@) =~= "bar_count"@);
            assert("bar-count"@.len() != "master-opacity"@.len());
            assert("bar_count"@.len() != "master-opacity"@.len());
            assert("bar-count"@.len() != "master_opacity"@.len());
            assert("bar_count"@.len() != "master_opacity"@.len());
        },
        SliderParam::BarWidth => {
            assert(snake_case("bar-width"@) =~= "bar_width"@);
            assert("bar-width"@.len() != "master-opacity"@.len());
            assert("bar_width"@.len() != "master-opacity"@.len());
            assert("bar-width"@.len() != "master_opacity"@.len());
            assert("bar_width"@.len() != "master_opacity"@.len());
            assert("bar-width"@[4] != "bar-count"@[4]);
            assert("bar_width"@[3] != "bar-count"@[3]);
            assert("bar-width"@[3] != "bar_count"@[3]);
            assert("bar_width"@[4] != "bar_count"@[4]);
        },
        SliderParam::BarRadius => {
            assert(snake_case("bar-radius"@) =~= "bar_radius"@);
            assert("bar-radius"@.len() != "master-opacity"@.len());
            assert("bar_radius"@.len() != "master-opacity"@.len());
            assert("bar-radius"@.len() != "master_opacity"@.len());
            assert("bar_radius"@.len() != "master_opacity"@.len());
            assert("bar-radius"@.len() != "bar-count"@.len());
            assert("bar_radius"@.len() != "bar-count"@.len());
            assert("bar-radius"@.len() != "bar_count"@.len());
            assert("bar_radius"@.len() != "bar_count"@.len());
            assert("bar-radius"@.len() != "bar-width"@.len());
            assert("bar_radius"@.len() != "bar-width"@.len());
            assert("bar-radius"@.len() != "bar_width"@.len());
            assert("bar_radius"@.len() != "bar_width"@.len());
        },
        SliderParam::BarGain => {
            assert(snake_case("bar-gain"@) =~= "bar_gain"@);
            assert("bar-gain"@.len() != "master-opacity"@.len());
            assert("bar_gain"@.len() != "master-opacity"@.len());
            assert("bar-gain"@.len() != "master_opacity"@.len());
            assert("bar_gain"@.len() != "master_opacity"@.len());
            assert("bar-gain"@.len() != "bar-count"@.len());
            assert("bar_gain"@.len() != "bar-count"@.len());
            assert("bar-gain"@.len() != "bar_count"@.len());
            assert("bar_gain"@.len() != "bar_count"@.len());
            assert("bar-gain"@.len() != "bar-width"@.len());
            assert("bar_gain"@.len() != "bar-width"@.len());
            assert("bar-gain"@.len() != "bar_width"@.len());
            assert("bar_gain"@.len() != "bar_width"@.len());
            assert("bar-gain"@.len() != "bar-radius"@.len());
            assert("bar_gain"@.len() != "bar-radius"@.len());
            assert("bar-gain"@.len() != "bar_radius"@.len());
            assert("bar_gain"@.len() != "bar_radius"@.len());
        },
        SliderParam::PeakGain => {
            assert(snake_case("peak-gain"@) =~= "peak_gain"@);
            assert("peak-gain"@.len() != "master-opacity"@.len());
            assert("peak_gain"@.len() != "master-opacity"@.len());
            assert("peak-gain"@.len() != "master_opacity"@.len());
            assert("peak_gain"@.len() != "master_opacity"@.len());
            assert("peak-gain"@[0] != "bar-count"@[0]);
            assert("peak_gain"@[0] != "bar-count"@[0]);
            assert("peak-gain"@[0] != "bar_count"@[0]);
            assert("peak_gain"@[0] != "bar_count"@[0]);
            assert("peak-gain"@[0] != "bar-width"@[0]);
            assert("peak_gain"@[0] != "bar-width"@[0]);
            assert("peak-gain"@[0] != "bar_width"@[0]);
            assert("peak_gain"@[0] != "bar_width"@[0]);
            assert("peak-gain"@.len() != "bar-radius"@.len());
            assert("peak_gain"@.len() != "bar-radius"@.len());
            assert("peak-gain"@.len() != "bar_radius"@.len());
            assert("peak_gain"@.len() != "bar_radius"@.len());
            assert("peak-gain"@.len() != "bar-gain"@.len());
            assert("peak_gain"@.len() != "bar-gain"@.len());
            assert("peak-gain"@.len() != "bar_gain"@.len());
            assert("peak_gain"@.len() != "bar_gain"@.len());
        },
        SliderParam::PeakAmplitude => {
            assert(snake_case("peak-amplitude"@) =~= "peak_amplitude"@);
            assert("peak-amplitude"@[0] != "master-opacity"@[0]);
            assert("peak_amplitude"@[0] != "master-opacity"@[0]);
            assert("peak-amplitude"@[0] != "master_opacity"@[0]);
            assert("peak_amplitude"@[0] != "master_opacity"@[0]);
            assert("peak-amplitude"@.len() != "bar-count"@.len());
            assert("peak_amplitude"@.len() != "bar-count"@.len());
            assert("peak-amplitude"@.len() != "bar_count"@.len());
            assert("peak_amplitude"@.len() != "bar_count"@.len());
            assert("peak-amplitude"@.len() != "bar-width"@.len());
            assert("peak_amplitude"@.len() != "bar-width"@.len());
            assert("peak-amplitude"@.len() != "bar_width"@.len());
            assert("peak_amplitude"@.len() != "bar_width"@.len());
            assert("peak-amplitude"@.len() != "bar-radius"@.len());
            assert("peak_amplitude"@.len() != "bar-radius"@.len());
            assert("peak-amplitude"@.len() != "bar_radius"@.len());
            assert("peak_amplitude"@.len() != "bar_radius"@.len());
            assert("peak-amplitude"@.len() != "bar-gain"@.len());
            assert("peak_amplitude"@.len() != "bar-gain"@.len());
            assert("peak-amplitude"@.len() != "bar_gain"@.len());
            assert("peak_amplitude"@.len() != "bar_gain"@.len());
            assert("peak-amplitude"@.len() != "peak-gain"@.len());
            assert("peak_amplitude"@.len() != "peak-gain"@.len());
            assert("peak-amplitude"@.len() != "peak_gain"@.len());
            assert("peak_amplitude"@.len() != "peak_gain"@.len());
        },
        SliderParam::Smoothing => {
            assert(snake_case("smoothing"@) =~= "smoothing"@);
            assert("smoothing"@.len() != "master-opacity"@.len());
            assert("smoothing"@.len() != "master_opacity"@.len());
            assert("smoothing"@[0] != "bar-count"@[0]);
            assert("smoothing"@[0] != "bar_count"@[0]);
            assert("smoothing"@[0] != "bar-width"@[0]);
            assert("smoothing"@[0] != "bar_width"@[0]);
            assert("smoothing"@.len() != "bar-radius"@.len());
            assert("smoothing"@.len() != "bar_radius"@.len());
            assert("smoothing"@.len() != "bar-gain"@.len());
            assert("smoothing"@.len() != "bar_gain"@.len());
            assert("smoothing"@[0] != "peak-gain"@[0]);
            assert("smoothing"@[0] != "peak_gain"@[0]);
            assert("smoothing"@.len() != "peak-amplitude"@.len());
            assert("smoothing"@.len() != "peak_amplitude"@.len());
        },
    }
}

/// Every switch is found by its panel name and by the snake_case spelling
/// of that name, and both give that switch.
pub proof fn law_toggle_names_in_both_spellings(p: ToggleParam)
    ensures
        spec_toggle_from_name(toggle_panel_name(p)) == Some(p),
        spec_toggle_from_name(snake_case(toggle_panel_name(p))) == Some(p),
{
    reveal_strlit("bar-count");
    reveal_strlit("bar-gain");
    reveal_strlit("bar-radius");
    reveal_strlit("bar-width");
    reveal_strlit("bar_count");
    reveal_strlit("bar_gain");
    reveal_strlit("bar_radius");
    reveal_strlit("bar_width");
    reveal_strlit("enable-peak-line");
    reveal_strlit("enable-reflection");
    reveal_strlit("enable_peak_line");
    reveal_strlit("enable_reflection");
    reveal_strlit("master-opacity");
    reveal_strlit("master_opacity");
    reveal_strlit("peak-amplitude");
    reveal_strlit("peak-gain");
    reveal_strlit("peak_amplitude");
    reveal_strlit("peak_gain");
    reveal_strlit("smoothing");
    match p {
        ToggleParam::EnableReflection => {
            assert(snake_case("enable-reflection"@) =~= "enable_reflection"@);
        },
        ToggleParam::EnablePeakLine => {
            assert(snake_case("enable-peak-line"@) =~= "enable_peak_line"@);
            assert("enable-peak-line"@.len() != "enable-reflection"@.len());
            assert("enable_peak_line"@.len() != "enable-reflection"@.len());
            assert("enable-peak-line"@.len() != "enable_reflection"@.len());
            assert("enable_peak_line"@.len() != "enable_reflection"@.len());
        },
    }
}

/// The integer spectrum settings: bar count, FFT size and analysis rate.
#[derive(Debug, Clone, Copy, PartialEq, Eq, Structural)]
pub struct SpectrumCounts {
    pub bar_count: usize,
    pub fft_size: usize,
    pub fps: u32,
}

/// FFT sizes the analyser supports.
pub open spec fn is_supported_fft_size(n: int) -> bool {
    n == 1024 || n == 2048 || n == 4096
}

/// A supported FFT size is kept; any other becomes 2048.
pub open spec fn sanitized_fft_size(n: int) -> int {
    if is_supported_fft_size(n) {
        n
    } else {
        2048
    }
}

/// `v` limited to `[lo, hi]`.
pub open spec fn clamped(v: int, lo: int, hi: int) -> int {
    if v < lo {
        lo
    } else if v > hi {
        hi
    } else {
        v
    }
}

impl SpectrumCounts {
    /// Brings each count into its valid range: 16 to 192 bars, an FFT size
    /// of 1024, 2048 or 4096 (2048 otherwise), 15 to 120 frames per second.
    pub fn sanitized(self) -> (s: SpectrumCounts)
        ensures
            s.bar_count == clamped(self.bar_count as int, 16, 192),
            s.fft_size == sanitized_fft_size(self.fft_size as int),
            s.fps == clamped(self.fps as int, 15, 120),
    {
        let bar_count = if self.bar_count < 16 {
            16
        } else if self.bar_count > 192 {
            192
        } else {
            self.bar_count
        };
        let fft_size = if self.fft_size == 1024 || self.fft_size == 2048 || self.fft_size == 4096 {
            self.fft_size
        } else {
            2048
        };
        let fps = if self.fps < 15 {
            15
        } else if self.fps > 120 {
            120
        } else {
            self.fps
        };
        SpectrumCounts { bar_count, fft_size, fps }
    }
}

/// Style preset of the panel limited to `0..=5` (0 is the custom style).
pub fn sanitized_preset(preset: i32) -> (p: i32)
    ensures
        p == clamped(preset as int, 0, 5),
{
    if preset < 0 {
        0
    } else if preset > 5 {
        5
    } else {
        preset
    }
}

/// Sanitizing the counts twice changes nothing more than once, and what
/// comes out is always in range: 16 to 192 bars, a supported FFT size, 15
/// to 120 frames per second.
pub proof fn law_counts_sanitize_idempotent(bar_count: int, fft_size: int, fps: int)
    ensures
        clamped(clamped(bar_count, 16, 192), 16, 192) == clamped(bar_count, 16, 192),
        16 <= clamped(bar_count, 16, 192) <= 192,
        sanitized_fft_size(sanitized_fft_size(fft_size)) == sanitized_fft_size(fft_size),
        is_supported_fft_size(sanitized_fft_size(fft_size)),
        clamped(clamped(fps, 15, 120), 15, 120) == clamped(fps, 15, 120),
        15 <= clamped(fps, 15, 120) <= 120,
{
}

/// Sanitizing a preset twice changes nothing more than once.
pub proof fn law_preset_sanitize_idempotent(preset: int)
    ensures
        clamped(clamped(preset, 0, 5), 0, 5) == clamped(preset, 0, 5),
        0 <= clamped(preset, 0, 5) <= 5,
{
}

} // verus!
