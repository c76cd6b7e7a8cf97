//! Audio input layer: the PCM ring buffer and the audio source abstraction.

pub mod buffer;
pub mod capture;
pub mod engine;
pub mod source;

pub use buffer::PcmRingBuffer;
pub use engine::AudioEngine;
pub use source::{AudioSource, AudioSourceKind, SystemAudioSource};
