use lumawave::audio::capture::{default_device_label, pick_input_device};
use lumawave::audio::source::DescriptionText;
use lumawave::audio::{AudioEngine, AudioSource, PcmRingBuffer, SystemAudioSource};
use lumawave::error::{AppError, AppResult};
use std::sync::atomic::{AtomicUsize, Ordering};
use std::sync::Arc;

/// A source that counts how often it was stopped.
struct CountingSource {
    stops: Arc<AtomicUsize>,
}

impl AudioSource for CountingSource {
    fn spec_description(&self) -> DescriptionText {
        unreachable!("a specification, never called")
    }

    fn spec_sample_rate(&self) -> u32 {
        44100
    }

    fn spec_channels(&self) -> u16 {
        1
    }

    fn start(&mut self) -> AppResult<()> {
        Ok(())
    }

    fn stop(&mut self) -> AppResult<()> {
        self.stops.fetch_add(1, Ordering::SeqCst);
        Ok(())
    }

    fn sample_rate(&self) -> u32 {
        44100
    }

    fn channels(&self) -> u16 {
        1
    }

    fn describe(&self) -> String {
        "测试信号".to_string()
    }
}

fn engine() -> AudioEngine<PcmRingBuffer<f32>, Box<dyn AudioSource>> {
    AudioEngine::new(Arc::new(PcmRingBuffer::new(64)))
}

#[test]
fn new_engine_has_no_source() {
    let e = engine();
    assert_eq!(e.source_format(), None);
    assert_eq!(e.source_description(), "无音频源");
    assert_eq!(e.ring().capacity(), 64);
}

#[test]
fn switching_stops_the_previous_source() {
    let mut e = engine();
    let stops = Arc::new(AtomicUsize::new(0));
    e.switch_source(Box::new(CountingSource { stops: Arc::clone(&stops) }))
        .expect("starts");
    assert_eq!(e.source_format(), Some((44100, 1)));
    assert_eq!(e.source_description(), "测试信号");
    e.switch_source(Box::new(CountingSource { stops: Arc::new(AtomicUsize::new(0)) }))
        .expect("starts");
    assert_eq!(stops.load(Ordering::SeqCst), 1);
}

#[test]
fn a_source_that_fails_to_start_leaves_no_source() {
    let mut e = engine();
    let stops = Arc::new(AtomicUsize::new(0));
    e.switch_source(Box::new(CountingSource { stops: Arc::clone(&stops) }))
        .expect("starts");
    let err = e.switch_source(Box::new(SystemAudioSource)).unwrap_err();
    assert!(matches!(err, AppError::UnsupportedFormat(_)));
    assert_eq!(stops.load(Ordering::SeqCst), 1);
    assert_eq!(e.source_format(), None);
    assert_eq!(e.source_description(), "无音频源");
}

#[test]
fn stop_source_removes_and_stops() {
    let mut e = engine();
    let stops = Arc::new(AtomicUsize::new(0));
    e.switch_source(Box::new(CountingSource { stops: Arc::clone(&stops) }))
        .expect("starts");
    e.stop_source();
    assert_eq!(stops.load(Ordering::SeqCst), 1);
    assert_eq!(e.source_format(), None);
    e.stop_source();
    assert_eq!(stops.load(Ordering::SeqCst), 1);
}

fn names(v: &[Option<&str>]) -> Vec<Option<String>> {
    v.iter().map(|n| n.map(|s| s.to_string())).collect()
}

#[test]
fn first_device_with_the_requested_name_is_picked() {
    let list = names(&[Some("USB Mic"), None, Some("Line In"), Some("Line In")]);
    assert_eq!(pick_input_device("Line In", &list).unwrap(), 2);
    assert_eq!(pick_input_device("USB Mic", &list).unwrap(), 0);
}

#[test]
fn named_device_lookup_fails_for_bogus_name() {
    let list = names(&[Some("USB Mic"), None]);
    match pick_input_device("不存在的设备名_xyz", &list) {
        Err(AppError::AudioDeviceNotFound(msg)) => {
            assert_eq!(msg, "找不到输入设备 不存在的设备名_xyz")
        }
        other => panic!("unexpected {other:?}"),
    }
    assert!(pick_input_device("USB", &list).is_err());
    assert!(pick_input_device("", &names(&[])).is_err());
}

#[test]
fn default_device_label_falls_back_to_generic_name() {
    assert_eq!(default_device_label(Some("Built-in".to_string())), "Built-in");
    assert_eq!(default_device_label(None), "默认设备");
}
