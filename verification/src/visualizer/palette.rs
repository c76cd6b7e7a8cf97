//! Gradient stops of the bar palette.
//!
//! The configured `#RRGGBB` list is parsed into colour stops; when fewer than
//! two colours parse, the built-in gradient is used instead, so rendering
//! always has a gradient to sample.

use crate::config::color::{lemma_default_colors_parse, parse_hex_color, spec_parse_hex_color};
use crate::config::settings::{default_color_texts, default_colors};
use vstd::prelude::*;

verus! {

/// Parser as a mapping from text to optional colour.
pub open spec fn color_parser() -> spec_fn(Seq<char>) -> Option<Seq<u8>> {
    |s: Seq<char>| spec_parse_hex_color(s)
}

/// Stops of a palette built from `colors`: the colours that parse, in
/// order, or the built-in gradient's when fewer than two parse.
pub open spec fn spec_palette_stops(colors: Seq<Seq<char>>) -> Seq<Seq<u8>> {
    let parsed = colors.filter_map(color_parser());
    if parsed.len() >= 2 {
        parsed
    } else {
        default_color_texts().filter_map(color_parser())
    }
}

/// Colours of `colors` that parse, in order.
fn parsed_colors(colors: &Vec<String>) -> (stops: Vec<[u8; 3]>)
    ensures
        stops.deep_view() == colors.deep_view().filter_map(color_parser()),
{
    let ghost all = colors.deep_view();
    let mut stops: Vec<[u8; 3]> = Vec::new();
    for i in 0..colors.len()
        invariant
            all == colors.deep_view(),
            stops.deep_view() == all.take(i as int).filter_map(color_parser()),
    {
        proof {
            assert(all.take(i + 1).drop_last() =~= all.take(i as int));
            assert(all.take(i + 1).last() == colors@[i as int]@);
        }
        let parsed = parse_hex_color(colors[i].as_str());
        match parsed {
            Some(rgb) => {
                assert(rgb.deep_view() =~= rgb@);
                let ghost before = stops.deep_view();
                stops.push(rgb);
                assert(stops.deep_view() =~= before + seq![rgb@]);
            },
            None => {},
        }
        assert(stops.deep_view() =~= all.take(i + 1).filter_map(color_parser()));
    }
    assert(all.take(colors.len() as int) =~= all);
    stops
}

/// Colour stops (red, green, blue bytes) of the palette for `colors`.
pub fn palette_stops(colors: &Vec<String>) -> (stops: Vec<[u8; 3]>)
    ensures
        stops.deep_view() == spec_palette_stops(colors.deep_view()),
{
    let stops = parsed_colors(colors);
    if stops.len() >= 2 {
        stops
    } else {
        let defaults = default_colors();
        parsed_colors(&defaults)
    }
}

/// Stops of the built-in gradient: pink, light pink, sky blue, lilac, cyan.
pub open spec fn default_stops() -> Seq<Seq<u8>> {
    seq![
        seq![0xF8u8, 0xAF, 0xDB],
        seq![0xF8u8, 0xA3, 0xC8],
        seq![0x87u8, 0xCE, 0xEB],
        seq![0xD8u8, 0xBF, 0xDB],
        seq![0x00u8, 0xFF, 0xFF],
    ]
}

/// The built-in gradient's texts parse to its five stops.
pub proof fn law_default_gradient()
    ensures
        default_color_texts().filter_map(color_parser()) == default_stops(),
{
    lemma_default_colors_parse();
    let t = default_color_texts();
    let f = color_parser();
    assert(t.take(0).filter_map(f) =~= Seq::<Seq<u8>>::empty());
    let d = default_stops();
    assert(t.take(1).drop_last() =~= t.take(0));
    assert(t.take(1).filter_map(f) =~= d.take(1));
    assert(t.take(2).drop_last() =~= t.take(1));
    assert(t.take(2).filter_map(f) =~= d.take(2));
    assert(t.take(3).drop_last() =~= t.take(2));
    assert(t.take(3).filter_map(f) =~= d.take(3));
    assert(t.take(4).drop_last() =~= t.take(3));
    assert(t.take(4).filter_map(f) =~= d.take(4));
    assert(t.take(5).drop_last() =~= t.take(4));
    assert(t.take(5).filter_map(f) =~= d.take(5));
    assert(t.take(5) =~= t);
    assert(default_stops().take(5) =~= default_stops());
}

/// A palette always has at least two stops to interpolate between: the
/// configured colours when at least two of them parse, the five built-in
/// ones otherwise.
pub proof fn law_palette_has_gradient(colors: Seq<Seq<char>>)
    ensures
        spec_palette_stops(colors).len() >= 2,
        colors.filter_map(color_parser()).len() < 2 ==> spec_palette_stops(colors)
            == default_stops(),
{
    law_default_gradient();
}

/// Configured colours are used as they are whenever they make a gradient:
/// when at least two of them parse, the stops are exactly the parsed
/// colours, in their order, with nothing added.
pub proof fn law_configured_gradient_is_kept(colors: Seq<Seq<char>>)
    requires
        colors.filter_map(color_parser()).len() >= 2,
    ensures
        spec_palette_stops(colors) == colors.filter_map(color_parser()),
{
}

/// Two colours that parse make a two-stop gradient from the first to the
/// second.
pub proof fn law_two_colors_make_their_gradient(a: Seq<char>, b: Seq<char>, ca: Seq<u8>, cb: Seq<u8>)
    requires
        spec_parse_hex_color(a) == Some(ca),
        spec_parse_hex_color(b) == Some(cb),
    ensures
        spec_palette_stops(seq![a, b]) == seq![ca, cb],
{
    let s = seq![a, b];
    let f = color_parser();
    assert(s.take(0).filter_map(f) =~= Seq::<Seq<u8>>::empty());
    assert(s.take(1).drop_last() =~= s.take(0));
    assert(s.take(1).filter_map(f) =~= seq![ca]);
    assert(s.take(2).drop_last() =~= s.take(1));
    assert(s.take(2).filter_map(f) =~= seq![ca, cb]);
    assert(s.take(2) =~= s);
}

} // verus!
