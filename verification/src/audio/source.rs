//! Audio source abstraction and the kinds of source the application knows.
//!
//! Every way of producing PCM (test signal, file playback, microphone,
//! system loopback) implements [`AudioSource`] and is started and stopped by
//! the audio engine; each writes mono samples into the shared ring buffer.

use crate::error::{AppError, AppResult};
use vstd::prelude::*;
use vstd::string::StringExecFns;

verus! {

/// Kind of audio source.
#[derive(Debug, Clone, Copy, PartialEq, Eq, Structural)]
pub enum AudioSourceKind {
    /// Built-in test signal (several sines imitating music; needs no device).
    Test,
    /// Playback of a local audio file.
    File,
    /// Microphone capture.
    Microphone,
    /// System audio loopback capture.
    System,
}

/// Human-readable name of a source kind, as shown in the status bar.
pub open spec fn spec_kind_label(kind: AudioSourceKind) -> Seq<char> {
    match kind {
        AudioSourceKind::Test => "测试信号"@,
        AudioSourceKind::File => "音频文件"@,
        AudioSourceKind::Microphone => "麦克风"@,
        AudioSourceKind::System => "系统音频"@,
    }
}

impl AudioSourceKind {
    /// Human-readable name of the kind.
    pub fn label(&self) -> (s: String)
        ensures
            s@ == spec_kind_label(*self),
    {
        match self {
            AudioSourceKind::Test => String::from_str("测试信号"),
            AudioSourceKind::File => String::from_str("音频文件"),
            AudioSourceKind::Microphone => String::from_str("麦克风"),
            AudioSourceKind::System => String::from_str("系统音频"),
        }
    }
}

/// Text of a source description, as contracts speak of it.
pub type DescriptionText = Seq<char>;

/// A producer of mono PCM for the shared ring buffer.
pub trait AudioSource: Send {
    /// Sample rate the source reports, in Hz.
    spec fn spec_sample_rate(&self) -> u32;

    /// Channel count the source reports.
    spec fn spec_channels(&self) -> u16;

    /// Description the source reports.
    spec fn spec_description(&self) -> DescriptionText;

    /// Starts producing audio; the format and description the source
    /// reports are not changed by starting it.
    fn start(&mut self) -> (r: AppResult<()>)
        ensures
            final(self).spec_sample_rate() == old(self).spec_sample_rate(),
            final(self).spec_channels() == old(self).spec_channels(),
            final(self).spec_description() == old(self).spec_description(),
    ;

    /// Stops producing audio, releasing threads and streams.
    fn stop(&mut self) -> AppResult<()>;

    /// Sample rate in Hz.
    fn sample_rate(&self) -> (rate: u32)
        ensures
            rate == self.spec_sample_rate(),
    ;

    /// Channel count.
    fn channels(&self) -> (n: u16)
        ensures
            n == self.spec_channels(),
    ;

    /// Human-readable description (for the status bar).
    fn describe(&self) -> (d: String)
        ensures
            d@ == self.spec_description(),
    ;
}

/// A boxed source of any kind is a source: every call goes to the boxed one.
impl AudioSource for Box<dyn AudioSource> {
    open spec fn spec_sample_rate(&self) -> u32 {
        (**self).spec_sample_rate()
    }

    open spec fn spec_channels(&self) -> u16 {
        (**self).spec_channels()
    }

    open spec fn spec_description(&self) -> DescriptionText {
        (**self).spec_description()
    }

    fn start(&mut self) -> (r: AppResult<()>) {
        (**self).start()
    }

    fn stop(&mut self) -> (r: AppResult<()>) {
        (**self).stop()
    }

    fn sample_rate(&self) -> (rate: u32) {
        (**self).sample_rate()
    }

    fn channels(&self) -> (n: u16) {
        (**self).channels()
    }

    fn describe(&self) -> (d: String) {
        (**self).describe()
    }
}

/// Message with which the system loopback source refuses to start.
pub open spec fn loopback_unsupported_message() -> Seq<char> {
    "系统音频环回捕获尚未实现（需要 WASAPI loopback 等平台专属能力）"@
}

/// Description of the system loopback source.
pub open spec fn loopback_description() -> Seq<char> {
    "系统音频环回（未实现，预留接口）"@
}

/// System audio loopback capture: a reserved interface that is not
/// implemented, and says so when started rather than faking data.
pub struct SystemAudioSource;

impl AudioSource for SystemAudioSource {
    open spec fn spec_sample_rate(&self) -> u32 {
        48000
    }

    open spec fn spec_channels(&self) -> u16 {
        2
    }

    open spec fn spec_description(&self) -> DescriptionText {
        loopback_description()
    }

    fn start(&mut self) -> (r: AppResult<()>)
        ensures
            r matches Err(AppError::UnsupportedFormat(msg)) && msg@ == loopback_unsupported_message(),
    {
        Err(
            AppError::UnsupportedFormat(
                String::from_str("系统音频环回捕获尚未实现（需要 WASAPI loopback 等平台专属能力）"),
            ),
        )
    }

    fn stop(&mut self) -> (r: AppResult<()>)
        ensures
            r is Ok,
    {
        Ok(())
    }

    fn sample_rate(&self) -> (rate: u32)
        ensures
            rate == 48000,
    {
        48000
    }

    fn channels(&self) -> (n: u16)
        ensures
            n == 2,
    {
        2
    }

    fn describe(&self) -> (s: String)
        ensures
            s@ == loopback_description(),
    {
        String::from_str("系统音频环回（未实现，预留接口）")
    }
}

} // verus!
