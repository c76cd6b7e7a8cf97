//! Configuration values that are not numbers on a scale: window kinds, colour
//! lists and palettes, the integer spectrum settings, and the configuration
//! file's place.

use crate::config::color::{lemma_default_colors_parse, parse_hex_color, spec_parse_hex_color};
use vstd::prelude::*;
use vstd::string::StringExecFns;

verus! {

/// Window function applied before the FFT.
#[derive(Debug, Clone, Copy, PartialEq, Eq, Structural)]
pub enum WindowKind {
    Hann,
    Hamming,
    Blackman,
}

/// One palette slot of the settings panel: an on/off flag and a `#RRGGBB` text.
#[derive(Debug)]
pub struct PaletteStop {
    pub enabled: bool,
    pub hex: String,
}

impl DeepView for PaletteStop {
    type V = (bool, Seq<char>);

    open spec fn deep_view(&self) -> (bool, Seq<char>) {
        (self.enabled, self.hex@)
    }
}

/// The built-in five-colour gradient: pink, light pink, sky blue, lilac, cyan.
pub open spec fn default_color_texts() -> Seq<Seq<char>> {
    seq!["#F8AFDB"@, "#F8A3C8"@, "#87CEEB"@, "#D8BFDB"@, "#00FFFF"@]
}

/// A text that parses as a colour.
pub open spec fn is_color_text(s: Seq<char>) -> bool {
    spec_parse_hex_color(s) is Some
}

/// Predicate form of [`is_color_text`].
pub open spec fn color_text_filter() -> spec_fn(Seq<char>) -> bool {
    |s: Seq<char>| is_color_text(s)
}

/// Predicate on palette slots whose text parses as a colour.
pub open spec fn stop_filter() -> spec_fn((bool, Seq<char>)) -> bool {
    |s: (bool, Seq<char>)| is_color_text(s.1)
}

/// Text of a palette slot when it is enabled.
pub open spec fn enabled_text() -> spec_fn((bool, Seq<char>)) -> Option<Seq<char>> {
    |s: (bool, Seq<char>)| if s.0 { Some(s.1) } else { None }
}

/// Colour list after sanitising: the entries that parse, unless fewer than
/// two do, in which case the built-in gradient.
pub open spec fn spec_sanitized_colors(colors: Seq<Seq<char>>) -> Seq<Seq<char>> {
    let kept = colors.filter(color_text_filter());
    if kept.len() >= 2 {
        kept
    } else {
        default_color_texts()
    }
}

/// The built-in palette: every default colour, enabled.
pub open spec fn default_palette_view() -> Seq<(bool, Seq<char>)> {
    default_color_texts().map_values(|s: Seq<char>| (true, s))
}

/// Palette after sanitising: the slots whose text parses, unless fewer than
/// two do, in which case the built-in palette.
pub open spec fn spec_sanitized_palette(palette: Seq<(bool, Seq<char>)>) -> Seq<(bool, Seq<char>)> {
    let kept = palette.filter(stop_filter());
    if kept.len() >= 2 {
        kept
    } else {
        default_palette_view()
    }
}

/// Colours shown live: the texts of the enabled palette slots when there
/// are at least two, otherwise the fallback list.
pub open spec fn spec_live_colors(palette: Seq<(bool, Seq<char>)>, fallback: Seq<Seq<char>>) -> Seq<Seq<char>> {
    let enabled = palette.filter_map(enabled_text());
    if enabled.len() >= 2 {
        enabled
    } else {
        fallback
    }
}

/// The built-in five-colour gradient as `#RRGGBB` texts.
pub fn default_colors() -> (colors: Vec<String>)
    ensures
        colors.deep_view() == default_color_texts(),
{
    let mut colors: Vec<String> = Vec::new();
    colors.push(String::from_str("#F8AFDB"));
    colors.push(String::from_str("#F8A3C8"));
    colors.push(String::from_str("#87CEEB"));
    colors.push(String::from_str("#D8BFDB"));
    colors.push(String::from_str("#00FFFF"));
    assert(colors.deep_view() =~= default_color_texts());
    colors
}

/// The built-in palette: every default colour, enabled.
pub fn default_palette() -> (palette: Vec<PaletteStop>)
    ensures
        palette.deep_view() == default_palette_view(),
{
    let colors = default_colors();
    let mut palette: Vec<PaletteStop> = Vec::new();
    for c in it: colors
        invariant
            it.seq() == colors@,
            colors.deep_view() == default_color_texts(),
            palette@.len() == it.index(),
            forall|j: int|
                0 <= j < it.index() ==> (#[trigger] palette@[j]).enabled && palette@[j].hex@
                    == default_color_texts()[j],
    {
        assert(colors.deep_view()[it.index() as int] == colors@[it.index() as int]@);
        palette.push(PaletteStop { enabled: true, hex: c });
    }
    assert(palette.deep_view() =~= default_palette_view());
    palette
}

/// Keeps the colours that parse; falls back to the built-in gradient when
/// fewer than two remain.
pub fn sanitized_colors(colors: &Vec<String>) -> (out: Vec<String>)
    ensures
        out.deep_view() == spec_sanitized_colors(colors.deep_view()),
{
    let mut kept: Vec<String> = Vec::new();
    let ghost all = colors.deep_view();
    for i in 0..colors.len()
        invariant
            all == colors.deep_view(),
            kept.deep_view() == all.take(i as int).filter(color_text_filter()),
    {
        proof {
            reveal_with_fuel(Seq::filter, 1);
            assert(all.take(i + 1).drop_last() =~= all.take(i as int));
        }
        let ok = parse_hex_color(colors[i].as_str()).is_some();
        if ok {
            kept.push(colors[i].clone());
        }
        assert(kept.deep_view() =~= all.take(i + 1).filter(color_text_filter()));
    }
    assert(all.take(colors.len() as int) =~= all);
    if kept.len() >= 2 {
        kept
    } else {
        default_colors()
    }
}

/// Keeps the palette slots whose text parses; falls back to the built-in
/// palette when fewer than two remain.
pub fn sanitized_palette(palette: Vec<PaletteStop>) -> (out: Vec<PaletteStop>)
    ensures
        out.deep_view() == spec_sanitized_palette(palette.deep_view()),
{
    let ghost all = palette.deep_view();
    let mut kept: Vec<PaletteStop> = Vec::new();
    for stop in it: palette
        invariant
            it.seq() == palette@,
            all == palette.deep_view(),
            kept.deep_view() == all.take(it.index() as int).filter(stop_filter()),
    {
        proof {
            reveal_with_fuel(Seq::filter, 1);
            assert(all.take(it.index() + 1).drop_last() =~= all.take(it.index() as int));
            assert(all[it.index() as int] == stop.deep_view());
        }
        let ok = parse_hex_color(stop.hex.as_str()).is_some();
        if ok {
            kept.push(stop);
        }
        assert(kept.deep_view() =~= all.take(it.index() + 1).filter(stop_filter()));
    }
    assert(all.take(all.len() as int) =~= all);
    if kept.len() >= 2 {
        kept
    } else {
        default_palette()
    }
}

/// Colours to display: the texts of the enabled palette slots when at least
/// two are enabled, otherwise a copy of `fallback`.
pub fn live_colors(palette: &Vec<PaletteStop>, fallback: &Vec<String>) -> (out: Vec<String>)
    ensures
        out.deep_view() == spec_live_colors(palette.deep_view(), fallback.deep_view()),
{
    let ghost all = palette.deep_view();
    let mut enabled: Vec<String> = Vec::new();
    for i in 0..palette.len()
        invariant
            all == palette.deep_view(),
            enabled.deep_view() == all.take(i as int).filter_map(enabled_text()),
    {
        proof {
            assert(all.take(i + 1).drop_last() =~= all.take(i as int));
            assert(all.take(i + 1).last() == palette@[i as int].deep_view());
        }
        if palette[i].enabled {
            enabled.push(palette[i].hex.clone());
        }
        assert(enabled.deep_view() =~= all.take(i + 1).filter_map(enabled_text()));
    }
    assert(all.take(palette.len() as int) =~= all);
    if enabled.len() >= 2 {
        enabled
    } else {
        let mut copy: Vec<String> = Vec::new();
        for i in 0..fallback.len()
            invariant
                copy@.len() == i,
                forall|j: int| 0 <= j < i ==> #[trigger] copy@[j]@ == fallback@[j]@,
        {
            let c = fallback[i].clone();
            copy.push(c);
        }
        assert(copy.deep_view() =~= fallback.deep_view());
        copy
    }
}

/// Filtering a sequence whose elements all pass keeps it whole.
proof fn lemma_filter_all<A>(s: Seq<A>, pred: spec_fn(A) -> bool)
    requires
        forall|i: int| 0 <= i < s.len() ==> pred(#[trigger] s[i]),
    ensures
        s.filter(pred) == s,
    decreases s.len(),
{
    reveal(Seq::filter);
    if s.len() > 0 {
        lemma_filter_all(s.drop_last(), pred);
        assert(s.drop_last().push(s.last()) =~= s);
    }
}

/// Every text of the built-in gradient parses.
proof fn lemma_default_texts_valid()
    ensures
        forall|i: int| 0 <= i < default_color_texts().len() ==> is_color_text(
            #[trigger] default_color_texts()[i],
        ),
{
    lemma_default_colors_parse();
    let d = default_color_texts();
    assert forall|i: int| 0 <= i < d.len() implies is_color_text(#[trigger] d[i]) by {
        if i == 0 {
        } else if i == 1 {
        } else if i == 2 {
        } else if i == 3 {
        } else {
        }
    }
}

/// A sanitised colour list has at least two entries and every entry parses.
pub proof fn law_sanitized_colors_are_valid(colors: Seq<Seq<char>>)
    ensures
        spec_sanitized_colors(colors).len() >= 2,
        forall|i: int|
            0 <= i < spec_sanitized_colors(colors).len() ==> is_color_text(
                #[trigger] spec_sanitized_colors(colors)[i],
            ),
{
    lemma_default_texts_valid();
    let kept = colors.filter(color_text_filter());
    assert forall|i: int| 0 <= i < kept.len() implies is_color_text(#[trigger] kept[i]) by {
        colors.lemma_filter_pred(color_text_filter(), i);
    }
}

/// Sanitising a colour list twice gives what sanitising once gives.
pub proof fn law_sanitized_colors_idempotent(colors: Seq<Seq<char>>)
    ensures
        spec_sanitized_colors(spec_sanitized_colors(colors)) == spec_sanitized_colors(colors),
{
    law_sanitized_colors_are_valid(colors);
    let once = spec_sanitized_colors(colors);
    lemma_filter_all(once, color_text_filter());
}

/// A sanitised palette has at least two slots and every slot's text parses.
pub proof fn law_sanitized_palette_is_valid(palette: Seq<(bool, Seq<char>)>)
    ensures
        spec_sanitized_palette(palette).len() >= 2,
        forall|i: int|
            0 <= i < spec_sanitized_palette(palette).len() ==> is_color_text(
                (#[trigger] spec_sanitized_palette(palette)[i]).1,
            ),
{
    lemma_default_texts_valid();
    let kept = palette.filter(stop_filter());
    assert forall|i: int| 0 <= i < kept.len() implies is_color_text((#[trigger] kept[i]).1) by {
        palette.lemma_filter_pred(stop_filter(), i);
    }
    let d = default_palette_view();
    assert forall|i: int| 0 <= i < d.len() implies is_color_text((#[trigger] d[i]).1) by {
        assert(d[i].1 == default_color_texts()[i]);
    }
}

/// Sanitising a palette twice gives what sanitising once gives.
pub proof fn law_sanitized_palette_idempotent(palette: Seq<(bool, Seq<char>)>)
    ensures
        spec_sanitized_palette(spec_sanitized_palette(palette)) == spec_sanitized_palette(palette),
{
    law_sanitized_palette_is_valid(palette);
    let once = spec_sanitized_palette(palette);
    lemma_filter_all(once, stop_filter());
}

/// Sanitising keeps the user's colours whenever they make a gradient: when
/// at least two entries parse, the result is exactly those entries, in
/// order, and the built-in gradient is not used.
pub proof fn law_valid_colors_are_kept(colors: Seq<Seq<char>>)
    requires
        colors.filter(color_text_filter()).len() >= 2,
    ensures
        spec_sanitized_colors(colors) == colors.filter(color_text_filter()),
{
}

/// A list of at least two colours that all parse is left exactly as it is.
pub proof fn law_valid_color_list_is_unchanged(colors: Seq<Seq<char>>)
    requires
        colors.len() >= 2,
        forall|i: int| 0 <= i < colors.len() ==> is_color_text(#[trigger] colors[i]),
    ensures
        spec_sanitized_colors(colors) == colors,
{
    lemma_filter_all(colors, color_text_filter());
}

/// A palette of at least two slots whose texts all parse is left exactly
/// as it is, enabled flags included.
pub proof fn law_valid_palette_is_unchanged(palette: Seq<(bool, Seq<char>)>)
    requires
        palette.len() >= 2,
        forall|i: int| 0 <= i < palette.len() ==> is_color_text((#[trigger] palette[i]).1),
    ensures
        spec_sanitized_palette(palette) == palette,
{
    lemma_filter_all(palette, stop_filter());
}

/// Live colours are the enabled slots' texts, in order, whenever at least
/// two slots are enabled; the fallback is used only otherwise.
pub proof fn law_enabled_slots_are_shown(palette: Seq<(bool, Seq<char>)>, fallback: Seq<Seq<char>>)
    ensures
        palette.filter_map(enabled_text()).len() >= 2 ==> spec_live_colors(palette, fallback)
            == palette.filter_map(enabled_text()),
        palette.filter_map(enabled_text()).len() < 2 ==> spec_live_colors(palette, fallback)
            == fallback,
{
}

} // verus!
