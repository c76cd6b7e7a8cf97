use lumawave::audio::{AudioSource, AudioSourceKind, SystemAudioSource};
use lumawave::error::AppError;

#[test]
fn system_audio_source_is_honestly_unimplemented() {
    let mut source = SystemAudioSource;
    let err = source.start().unwrap_err();
    assert!(matches!(err, AppError::UnsupportedFormat(_)));
}

#[test]
fn system_audio_source_reports_its_format() {
    let mut source = SystemAudioSource;
    assert!(source.stop().is_ok());
    assert_eq!(source.sample_rate(), 48000);
    assert_eq!(source.channels(), 2);
    assert_eq!(source.describe(), "系统音频环回（未实现，预留接口）");
    match source.start() {
        Err(AppError::UnsupportedFormat(msg)) => {
            assert_eq!(msg, "系统音频环回捕获尚未实现（需要 WASAPI loopback 等平台专属能力）")
        }
        other => panic!("unexpected {other:?}"),
    }
}

#[test]
fn source_kind_labels() {
    assert_eq!(AudioSourceKind::Test.label(), "测试信号");
    assert_eq!(AudioSourceKind::File.label(), "音频文件");
    assert_eq!(AudioSourceKind::Microphone.label(), "麦克风");
    assert_eq!(AudioSourceKind::System.label(), "系统音频");
}
