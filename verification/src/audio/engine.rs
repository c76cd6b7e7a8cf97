//! Audio engine: owns the active audio source and the ring buffer sources
//! write into, and starts, stops and swaps sources.
//!
//! The spectrum analyser reads the same ring buffer; the engine does not
//! know about it.

use crate::audio::source::AudioSource;
use crate::error::AppResult;
use std::sync::Arc;
use vstd::prelude::*;
use vstd::string::StringExecFns;

verus! {

/// Description reported when no source is running.
pub open spec fn no_source_description() -> Seq<char> {
    "无音频源"@
}

/// Audio engine over a shared ring buffer of type `R`, running sources of
/// type `S` (a boxed `dyn AudioSource` to switch between kinds of source).
///
/// The engine has no destructor of its own: dropping it drops the installed
/// source, which stops through its own `Drop`; `stop_source` stops it
/// explicitly.
pub struct AudioEngine<R, S> {
    ring: Arc<R>,
    source: Option<S>,
}

impl<R, S: AudioSource> AudioEngine<R, S> {
    /// Whether a source is installed.
    pub closed spec fn has_source(&self) -> bool {
        self.source is Some
    }

    /// Sample rate and channel count the installed source reports.
    pub closed spec fn spec_format(&self) -> Option<(u32, u16)> {
        match self.source {
            Some(s) => Some((s.spec_sample_rate(), s.spec_channels())),
            None => None,
        }
    }

    /// Description of the installed source, or the "no source" text.
    pub closed spec fn spec_description(&self) -> Seq<char> {
        match self.source {
            Some(s) => s.spec_description(),
            None => no_source_description(),
        }
    }

    /// The shared ring buffer.
    pub closed spec fn spec_ring(&self) -> Arc<R> {
        self.ring
    }

    /// An engine with no source yet; start one with `switch_source`.
    pub fn new(ring: Arc<R>) -> (engine: Self)
        ensures
            !engine.has_source(),
            engine.spec_format() is None,
            engine.spec_description() == no_source_description(),
            engine.spec_ring() == ring,
    {
        AudioEngine { ring, source: None }
    }

    /// The ring buffer shared by the analyser and every source.
    pub fn ring(&self) -> (r: &Arc<R>)
        ensures
            *r == self.spec_ring(),
    {
        &self.ring
    }

    /// Swaps sources: stops the current one (a failure to stop is not an
    /// error of the swap), then starts `source`. The new source is installed
    /// when it started; when it failed to start its error is returned and the
    /// engine is left without a source.
    pub fn switch_source(&mut self, source: S) -> (r: AppResult<()>)
        ensures
            final(self).has_source() == (r is Ok),
            r is Ok ==> final(self).spec_format() == Some((source.spec_sample_rate(), source.spec_channels())),
            r is Ok ==> final(self).spec_description() == source.spec_description(),
            r is Err ==> final(self).spec_description() == no_source_description(),
            final(self).spec_ring() == old(self).spec_ring(),
    {
        let mut source = source;
        self.stop_source();
        let started = source.start();
        match started {
            Ok(()) => {
                self.source = Some(source);
                Ok(())
            },
            Err(e) => Err(e),
        }
    }

    /// Stops and removes the current source, if any.
    pub fn stop_source(&mut self)
        ensures
            !final(self).has_source(),
            final(self).spec_format() is None,
            final(self).spec_description() == no_source_description(),
            final(self).spec_ring() == old(self).spec_ring(),
    {
        match self.source.take() {
            Some(old) => {
                let mut old = old;
                let _ = old.stop();
            },
            None => {},
        }
    }

    /// Sample rate and channel count of the current source.
    pub fn source_format(&self) -> (f: Option<(u32, u16)>)
        ensures
            f == self.spec_format(),
            f is Some == self.has_source(),
    {
        match &self.source {
            Some(s) => Some((s.sample_rate(), s.channels())),
            None => None,
        }
    }

    /// Description of the current source (for the status bar).
    pub fn source_description(&self) -> (d: String)
        ensures
            d@ == self.spec_description(),
            !self.has_source() ==> d@ == no_source_description(),
    {
        match &self.source {
            Some(s) => s.describe(),
            None => String::from_str("无音频源"),
        }
    }
}

} // verus!
