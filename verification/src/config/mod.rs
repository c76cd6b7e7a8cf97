//! User configuration: colours, palettes, panel parameters and the
//! configuration file's place.

pub mod color;
pub mod params;
pub mod path;
pub mod settings;

pub use color::parse_hex_color;
pub use params::{SliderParam, SpectrumCounts, ToggleParam};
pub use path::{config_path, Platform};
pub use settings::{PaletteStop, WindowKind};
