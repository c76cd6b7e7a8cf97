//! Visual layer: the palette the bars are coloured with.

pub mod palette;

pub use palette::palette_stops;
