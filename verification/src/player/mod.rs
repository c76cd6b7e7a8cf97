//! Audio playback: the playlist of files, the playback thread's decisions,
//! and the player that combines the playlist with the audio engine.
//!
//! The player decides *what* plays; the sources themselves (a file being
//! decoded, the test signal, a microphone) are built by the caller, which
//! does the I/O, and handed to the player, which swaps them into the engine.
//! Pausing goes through a shared flag: the player and the current file
//! source hold the same one; switching sources clears it.

pub mod packets;
pub mod playback;
pub mod playlist;
pub mod tracks;

pub use packets::{decoder_next, DecoderEvent, DecoderStep, PacketDecode, PacketRead};
pub use playback::{playback_next, PacketOutcome, PlaybackAction, PlaybackEvent};
pub use playlist::Playlist;
pub use tracks::{first_audio_track, stream_format};

use crate::audio::engine::AudioEngine;
use crate::audio::source::AudioSource;
use crate::error::AppResult;
use crate::player::playlist::{
    copy_path, model_next, model_next_pick, model_prev, model_prev_pick, PlaylistModel,
};
use std::path::PathBuf;
use std::sync::atomic::{AtomicBool, Ordering};
use std::sync::Arc;
use vstd::prelude::*;

verus! {

/// `Arc::clone` on a shared flag: another handle to the same flag.
#[verifier::external_body]
fn share_flag(flag: &Arc<AtomicBool>) -> (r: Arc<AtomicBool>)
    ensures
        r == *flag,
{
    Arc::clone(flag)
}

/// Result of `Path::file_name` on a path, as text (lossily converted).
pub uninterp spec fn file_name_text(path: PathBuf) -> Option<Seq<char>>;

/// `Path::file_name`: the last component of `path` unless it is `..` or the
/// path is empty or a root; converted to text, with invalid sequences
/// replaced. Depends on the path alone.
#[verifier::external_body]
fn file_name_of(path: &PathBuf) -> (r: Option<String>)
    ensures
        match r {
            Some(s) => file_name_text(*path) == Some(s@),
            None => file_name_text(*path) is None,
        },
{
    match path.file_name() {
        Some(name) => Some(name.to_string_lossy().into_owned()),
        None => None,
    }
}

/// Player: playlist, pause control and the audio engine.
/// Sources are of type `S` (a boxed `dyn AudioSource` to switch kinds).
pub struct Player<R, S> {
    engine: AudioEngine<R, S>,
    playlist: Playlist,
    /// Pause flag shared with the current file source.
    pause: Arc<AtomicBool>,
    /// File being played.
    current: Option<PathBuf>,
    /// End-of-file flag of the current file source.
    finished: Arc<AtomicBool>,
}

impl<R, S: AudioSource> Player<R, S> {
    /// The playlist's abstract state.
    pub closed spec fn queue(&self) -> PlaylistModel {
        self.playlist@
    }

    /// The file being played.
    pub closed spec fn track(&self) -> Option<PathBuf> {
        self.current
    }

    /// Whether the engine has a running source.
    pub closed spec fn engine_running(&self) -> bool {
        self.engine.has_source()
    }

    /// Format the engine's running source reports, if any.
    pub closed spec fn spec_source_format(&self) -> Option<(u32, u16)> {
        self.engine.spec_format()
    }

    /// Description of the engine's running source, or the "no source" text.
    pub closed spec fn spec_source_description(&self) -> Seq<char> {
        self.engine.spec_description()
    }

    /// The ring buffer the engine's sources write into.
    pub closed spec fn spec_ring(&self) -> Arc<R> {
        self.engine.spec_ring()
    }

    /// The end-of-file flag of the current file source.
    pub closed spec fn spec_finished(&self) -> Arc<AtomicBool> {
        self.finished
    }

    /// The pause flag handed to file sources.
    pub closed spec fn spec_pause(&self) -> Arc<AtomicBool> {
        self.pause
    }

    /// Takes over `engine`, with an empty playlist and nothing playing.
    pub fn new(engine: AudioEngine<R, S>) -> (p: Self)
        ensures
            p.queue().items == Seq::<PathBuf>::empty(),
            p.queue().index == None::<nat>,
            p.track() == None::<PathBuf>,
            p.engine_running() == engine.has_source(),
            p.spec_ring() == engine.spec_ring(),
    {
        Player {
            engine,
            playlist: Playlist::default(),
            pause: Arc::new(AtomicBool::new(false)),
            current: None,
            finished: Arc::new(AtomicBool::new(false)),
        }
    }

    /// Appends `files` to the playlist in order and returns how many were
    /// added.
    pub fn add_files(&mut self, files: Vec<PathBuf>) -> (n: usize)
        ensures
            n == files@.len(),
            final(self).queue().items == old(self).queue().items + files@,
            final(self).queue().index == old(self).queue().index,
            final(self).track() == old(self).track(),
            final(self).engine_running() == old(self).engine_running(),
            final(self).spec_ring() == old(self).spec_ring(),
    {
        let before = self.playlist.len();
        self.playlist.add_many(files);
        self.playlist.len() - before
    }

    /// The ring buffer a new source must write into.
    pub fn ring(&self) -> (r: &Arc<R>)
        ensures
            *r == self.spec_ring(),
    {
        self.engine.ring()
    }

    /// Another handle to the pause flag, for a new file source.
    pub fn pause_handle(&self) -> (r: Arc<AtomicBool>)
        ensures
            r == self.spec_pause(),
    {
        share_flag(&self.pause)
    }

    /// Plays `path` through `source`, a file source already opened on it
    /// (one that fails to open never reaches the player, which is then left
    /// as it was), whose end-of-file flag is `finished`. When the source
    /// starts, `path` becomes the current track and pause is cleared; when it
    /// does not, its error is returned, the current track is kept and the
    /// engine is left without a source.
    pub fn play(&mut self, path: &PathBuf, source: S, finished: Arc<AtomicBool>) -> (r: AppResult<()>)
        ensures
            final(self).engine_running() == (r is Ok),
            r is Ok ==> final(self).spec_source_format() == Some(
                (source.spec_sample_rate(), source.spec_channels()),
            ),
            r is Ok ==> final(self).spec_source_description() == source.spec_description(),
            r is Ok ==> final(self).track() == Some(*path),
            r is Err ==> final(self).track() == old(self).track(),
            final(self).queue() == old(self).queue(),
            final(self).spec_ring() == old(self).spec_ring(),
            final(self).spec_pause() == old(self).spec_pause(),
            final(self).spec_finished() == finished,
    {
        self.finished = finished;
        match self.engine.switch_source(source) {
            Ok(()) => {},
            Err(e) => {
                return Err(e);
            },
        }
        self.pause.store(false, Ordering::Release);
        self.current = Some(copy_path(path));
        Ok(())
    }

    /// Flips pause and returns the new state (`true` = paused).
    pub fn toggle_pause(&self) -> bool {
        let next = !self.pause.load(Ordering::Acquire);
        self.pause.store(next, Ordering::Release);
        next
    }

    /// Whether playback is paused.
    pub fn is_paused(&self) -> bool {
        self.pause.load(Ordering::Acquire)
    }

    /// Whether there is a current track.
    pub fn has_track(&self) -> (b: bool)
        ensures
            b == (self.track() is Some),
    {
        self.current.is_some()
    }

    /// Whether the current track has played to its end.
    pub fn is_finished(&self) -> bool {
        self.finished.load(Ordering::Acquire)
    }

    /// Moves to the next file of the playlist and returns it; at the end of
    /// the list returns `None` (no wrap-around).
    pub fn next_track(&mut self) -> (r: Option<PathBuf>)
        ensures
            r == model_next_pick(old(self).queue()),
            final(self).queue() == model_next(old(self).queue()),
            final(self).track() == old(self).track(),
            final(self).engine_running() == old(self).engine_running(),
    {
        match self.playlist.next() {
            Some(p) => Some(copy_path(p)),
            None => None,
        }
    }

    /// Moves to the previous file and returns it; at the start of the list
    /// (or with nothing selected) returns `None`.
    pub fn prev_track(&mut self) -> (r: Option<PathBuf>)
        ensures
            r == model_prev_pick(old(self).queue()),
            final(self).queue() == model_prev(old(self).queue()),
            final(self).track() == old(self).track(),
            final(self).engine_running() == old(self).engine_running(),
    {
        match self.playlist.prev() {
            Some(p) => Some(copy_path(p)),
            None => None,
        }
    }

    /// Switches to the test signal `source`; on success there is no current
    /// track and pause is cleared. On failure the error is returned, the
    /// track is kept and the engine is left without a source.
    pub fn use_test_signal(&mut self, source: S) -> (r: AppResult<()>)
        ensures
            final(self).engine_running() == (r is Ok),
            r is Ok ==> final(self).spec_source_format() == Some(
                (source.spec_sample_rate(), source.spec_channels()),
            ),
            r is Ok ==> final(self).spec_source_description() == source.spec_description(),
            r is Ok ==> final(self).track() == None::<PathBuf>,
            r is Err ==> final(self).track() == old(self).track(),
            r is Err ==> final(self).spec_finished() == old(self).spec_finished(),
            final(self).queue() == old(self).queue(),
            final(self).spec_ring() == old(self).spec_ring(),
            final(self).spec_pause() == old(self).spec_pause(),
    {
        match self.engine.switch_source(source) {
            Ok(()) => {},
            Err(e) => {
                return Err(e);
            },
        }
        self.reset_playback_state();
        Ok(())
    }

    /// Switches to the microphone capture `source`, with the same outcome
    /// as [`Player::use_test_signal`].
    pub fn use_microphone(&mut self, source: S) -> (r: AppResult<()>)
        ensures
            final(self).engine_running() == (r is Ok),
            r is Ok ==> final(self).spec_source_format() == Some(
                (source.spec_sample_rate(), source.spec_channels()),
            ),
            r is Ok ==> final(self).spec_source_description() == source.spec_description(),
            r is Ok ==> final(self).track() == None::<PathBuf>,
            r is Err ==> final(self).track() == old(self).track(),
            r is Err ==> final(self).spec_finished() == old(self).spec_finished(),
            final(self).queue() == old(self).queue(),
            final(self).spec_ring() == old(self).spec_ring(),
            final(self).spec_pause() == old(self).spec_pause(),
    {
        match self.engine.switch_source(source) {
            Ok(()) => {},
            Err(e) => {
                return Err(e);
            },
        }
        self.reset_playback_state();
        Ok(())
    }

    /// No track, not paused, not finished: the state of a live source.
    fn reset_playback_state(&mut self)
        ensures
            final(self).track() == None::<PathBuf>,
            final(self).queue() == old(self).queue(),
            final(self).engine_running() == old(self).engine_running(),
            final(self).spec_ring() == old(self).spec_ring(),
            final(self).spec_pause() == old(self).spec_pause(),
            final(self).spec_source_format() == old(self).spec_source_format(),
            final(self).spec_source_description() == old(self).spec_source_description(),
    {
        self.pause.store(false, Ordering::Release);
        self.current = None;
        self.finished = Arc::new(AtomicBool::new(false));
    }

    /// The file being played.
    pub fn current_path(&self) -> (r: Option<PathBuf>)
        ensures
            r == self.track(),
    {
        match &self.current {
            Some(p) => Some(copy_path(p)),
            None => None,
        }
    }

    /// File name of the current track (`None` without a track).
    pub fn current_file_name(&self) -> (r: Option<String>)
        ensures
            self.track() is None ==> r is None,
            self.track() matches Some(p) ==> match r {
                Some(s) => file_name_text(p) == Some(s@),
                None => file_name_text(p) is None,
            },
    {
        match &self.current {
            Some(p) => file_name_of(p),
            None => None,
        }
    }

    /// Number of files in the playlist.
    pub fn track_count(&self) -> (n: usize)
        ensures
            n == self.queue().items.len(),
    {
        self.playlist.len()
    }

    /// Description of the current source (for the status bar).
    pub fn source_description(&self) -> (d: String)
        ensures
            d@ == self.spec_source_description(),
            !self.engine_running() ==> d@ == crate::audio::engine::no_source_description(),
    {
        self.engine.source_description()
    }
}

} // verus!
