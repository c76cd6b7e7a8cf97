//! Error type shared by the library's modules.

use vstd::prelude::*;

verus! {

/// `std::io::Error`, carried as an opaque value.
#[verifier::external_type_specification]
#[verifier::external_body]
pub struct ExIoError(std::io::Error);

/// Errors reported by the lower layers.
#[derive(Debug)]
pub enum AppError {
    /// No usable audio device.
    AudioDeviceNotFound(String),
    /// Creating or running an audio stream failed.
    AudioStreamError(String),
    /// Unsupported or unavailable audio format or capability.
    UnsupportedFormat(String),
    /// Decoding an audio file failed.
    DecoderError(String),
    /// FFT failure (such as an input whose length is not the FFT size).
    FftError(String),
    /// Reading, writing or checking the configuration failed.
    ConfigError(String),
    /// UI or bridge failure.
    UiError(String),
    /// I/O failure.
    Io(std::io::Error),
}

/// Result type of the lower layers.
pub type AppResult<T> = Result<T, AppError>;

} // verus!
