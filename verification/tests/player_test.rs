use lumawave::audio::source::DescriptionText;
use lumawave::audio::{AudioEngine, AudioSource, PcmRingBuffer, SystemAudioSource};
use lumawave::error::{AppError, AppResult};
use lumawave::player::Player;
use std::path::PathBuf;
use std::sync::atomic::AtomicBool;
use std::sync::Arc;

/// A source that always starts and describes itself by a fixed name.
struct QuietSource {
    name: &'static str,
}

impl AudioSource for QuietSource {
    fn spec_description(&self) -> DescriptionText {
        unreachable!("a specification, never called")
    }

    fn spec_sample_rate(&self) -> u32 {
        44100
    }

    fn spec_channels(&self) -> u16 {
        1
    }

    fn start(&mut self) -> AppResult<()> {
        Ok(())
    }

    fn stop(&mut self) -> AppResult<()> {
        Ok(())
    }

    fn sample_rate(&self) -> u32 {
        44100
    }

    fn channels(&self) -> u16 {
        1
    }

    fn describe(&self) -> String {
        format!("文件: {}", self.name)
    }
}

fn new_player() -> Player<PcmRingBuffer<f32>, Box<dyn AudioSource>> {
    let ring = Arc::new(PcmRingBuffer::new(8192));
    Player::new(AudioEngine::new(ring))
}

#[test]
fn pause_and_playlist_states_without_track() {
    let mut player = new_player();
    assert!(!player.has_track());
    assert!(!player.is_paused());
    assert!(!player.is_finished());
    assert!(player.current_file_name().is_none());
    assert_eq!(player.track_count(), 0);
    assert!(player.next_track().is_none());
    assert!(player.prev_track().is_none());
    assert!(player.toggle_pause());
    assert!(player.is_paused());
    assert!(!player.toggle_pause());
}

#[test]
fn add_files_and_navigate() {
    let mut player = new_player();
    let files = vec![
        PathBuf::from("a.mp3"),
        PathBuf::from("b.wav"),
        PathBuf::from("c.flac"),
    ];
    assert_eq!(player.add_files(files), 3);
    assert_eq!(player.track_count(), 3);
    assert_eq!(player.next_track(), Some(PathBuf::from("a.mp3")));
    assert_eq!(player.next_track(), Some(PathBuf::from("b.wav")));
    assert_eq!(player.prev_track(), Some(PathBuf::from("a.mp3")));
    assert_eq!(player.prev_track(), None);
}

#[test]
fn play_sets_the_current_track_and_clears_pause() {
    let mut player = new_player();
    assert_eq!(player.source_description(), "无音频源");
    assert!(player.toggle_pause());
    let path = PathBuf::from("music/tone_440.wav");
    let finished = Arc::new(AtomicBool::new(false));
    player
        .play(&path, Box::new(QuietSource { name: "tone_440.wav" }), finished)
        .expect("a source that starts");
    assert!(player.has_track());
    assert!(!player.is_paused());
    assert!(!player.is_finished());
    assert_eq!(player.current_path(), Some(path));
    assert_eq!(player.current_file_name().as_deref(), Some("tone_440.wav"));
    assert!(player.source_description().contains("tone_440.wav"));
}

#[test]
fn failed_play_keeps_the_track_and_stops_the_engine() {
    let mut player = new_player();
    let first = PathBuf::from("a.mp3");
    player
        .play(&first, Box::new(QuietSource { name: "a.mp3" }), Arc::new(AtomicBool::new(false)))
        .expect("a source that starts");
    let second = PathBuf::from("b.mp3");
    let err = player
        .play(&second, Box::new(SystemAudioSource), Arc::new(AtomicBool::new(false)))
        .unwrap_err();
    assert!(matches!(err, AppError::UnsupportedFormat(_)));
    assert_eq!(player.current_path(), Some(first));
    assert_eq!(player.source_description(), "无音频源");
}

#[test]
fn live_sources_clear_the_track() {
    let mut player = new_player();
    let path = PathBuf::from("a.mp3");
    player
        .play(&path, Box::new(QuietSource { name: "a.mp3" }), Arc::new(AtomicBool::new(false)))
        .expect("a source that starts");
    assert!(player.toggle_pause());
    player
        .use_test_signal(Box::new(QuietSource { name: "test" }))
        .expect("a source that starts");
    assert!(!player.has_track());
    assert!(!player.is_paused());
    assert!(player.current_file_name().is_none());

    player
        .play(&path, Box::new(QuietSource { name: "a.mp3" }), Arc::new(AtomicBool::new(true)))
        .expect("a source that starts");
    assert!(player.is_finished());
    player
        .use_microphone(Box::new(QuietSource { name: "mic" }))
        .expect("a source that starts");
    assert!(!player.has_track());
    assert!(!player.is_finished());
}

#[test]
fn failed_live_source_keeps_the_track() {
    let mut player = new_player();
    let path = PathBuf::from("a.mp3");
    player
        .play(&path, Box::new(QuietSource { name: "a.mp3" }), Arc::new(AtomicBool::new(false)))
        .expect("a source that starts");
    assert!(player.use_microphone(Box::new(SystemAudioSource)).is_err());
    assert_eq!(player.current_path(), Some(path));
    assert_eq!(player.source_description(), "无音频源");
}

#[test]
fn pause_handle_is_the_players_flag() {
    let player = new_player();
    let handle = player.pause_handle();
    assert!(player.toggle_pause());
    assert!(handle.load(std::sync::atomic::Ordering::Acquire));
}
