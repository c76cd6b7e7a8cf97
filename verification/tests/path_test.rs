use lumawave::config::path::config_dir;
use lumawave::config::{config_path, Platform};
use lumawave::error::AppError;
use std::path::PathBuf;

#[test]
fn windows_config_lives_under_appdata() {
    let p = config_path(Platform::Windows, Some(PathBuf::from("C:/Users/u/AppData")), None, None)
        .expect("path");
    assert_eq!(p, PathBuf::from("C:/Users/u/AppData").join("music-spectrum").join("settings.json"));
}

#[test]
fn macos_config_lives_under_application_support() {
    let p = config_path(Platform::MacOs, None, Some(PathBuf::from("/Users/u")), None).expect("path");
    assert_eq!(p, PathBuf::from("/Users/u/Library/Application Support/music-spectrum/settings.json"));
}

#[test]
fn other_platforms_prefer_xdg_then_home_config() {
    let xdg = config_path(
        Platform::Other,
        None,
        Some(PathBuf::from("/home/u")),
        Some(PathBuf::from("/xdg")),
    )
    .expect("path");
    assert_eq!(xdg, PathBuf::from("/xdg/music-spectrum/settings.json"));
    let home = config_path(Platform::Other, None, Some(PathBuf::from("/home/u")), None).expect("path");
    assert_eq!(home, PathBuf::from("/home/u/.config/music-spectrum/settings.json"));
    assert_eq!(
        config_dir(Platform::Other, None, Some(PathBuf::from("/home/u")), None),
        Some(PathBuf::from("/home/u/.config/music-spectrum"))
    );
}

#[test]
fn missing_environment_is_a_config_error() {
    match config_path(Platform::Windows, None, Some(PathBuf::from("/home/u")), None) {
        Err(AppError::ConfigError(msg)) => assert_eq!(msg, "无法确定配置目录"),
        other => panic!("unexpected {other:?}"),
    }
    assert!(config_path(Platform::Other, None, None, None).is_err());
    assert!(config_dir(Platform::MacOs, None, None, Some(PathBuf::from("/xdg"))).is_none());
}
