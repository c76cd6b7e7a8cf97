//! LumaWave: the verified core of a real-time music spectrum visualiser.

pub mod audio;
pub mod config;
pub mod error;
pub mod player;
pub mod spectrum;
pub mod visualizer;
