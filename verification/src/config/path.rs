//! Where the configuration file lives.
//!
//! - Windows: `%APPDATA%\music-spectrum\settings.json`
//! - macOS: `~/Library/Application Support/music-spectrum/settings.json`
//! - elsewhere: `$XDG_CONFIG_HOME/music-spectrum/settings.json`, or
//!   `~/.config/music-spectrum/settings.json` without `XDG_CONFIG_HOME`
//!
//! The caller reads the environment; this module decides.

use crate::error::{AppError, AppResult};
use std::path::PathBuf;
use vstd::prelude::*;
use vstd::string::StringExecFns;

verus! {

/// Result of `PathBuf::join(base, part)`.
pub uninterp spec fn joined_path(base: PathBuf, part: Seq<char>) -> PathBuf;

/// `PathBuf::join`: the path `part` appended to `base`, as a value that
/// depends on the two arguments alone.
#[verifier::external_body]
fn path_join(base: &PathBuf, part: &str) -> (p: PathBuf)
    ensures
        p == joined_path(*base, part@),
{
    base.join(part)
}

/// Platform family, which decides where configuration is kept.
#[derive(Debug, Clone, Copy, PartialEq, Eq, Structural)]
pub enum Platform {
    Windows,
    MacOs,
    Other,
}

/// Name of the application's configuration directory.
pub open spec fn app_dir_name() -> Seq<char> {
    "music-spectrum"@
}

/// Configuration directory, from the platform and the values of `APPDATA`,
/// `HOME` and `XDG_CONFIG_HOME` (each `None` when unset).
pub open spec fn spec_config_dir(
    platform: Platform,
    appdata: Option<PathBuf>,
    home: Option<PathBuf>,
    xdg: Option<PathBuf>,
) -> Option<PathBuf> {
    match platform {
        Platform::Windows => match appdata {
            Some(a) => Some(joined_path(a, app_dir_name())),
            None => None,
        },
        Platform::MacOs => match home {
            Some(h) => Some(
                joined_path(
                    joined_path(joined_path(h, "Library"@), "Application Support"@),
                    app_dir_name(),
                ),
            ),
            None => None,
        },
        Platform::Other => match xdg {
            Some(x) => Some(joined_path(x, app_dir_name())),
            None => match home {
                Some(h) => Some(joined_path(joined_path(h, ".config"@), app_dir_name())),
                None => None,
            },
        },
    }
}

/// Message when no configuration directory can be determined.
pub open spec fn no_config_dir_message() -> Seq<char> {
    "无法确定配置目录"@
}

/// Configuration directory for `platform`, or `None` when the variables it
/// needs are unset.
pub fn config_dir(
    platform: Platform,
    appdata: Option<PathBuf>,
    home: Option<PathBuf>,
    xdg: Option<PathBuf>,
) -> (dir: Option<PathBuf>)
    ensures
        dir == spec_config_dir(platform, appdata, home, xdg),
{
    match platform {
        Platform::Windows => match appdata {
            Some(a) => Some(path_join(&a, "music-spectrum")),
            None => None,
        },
        Platform::MacOs => match home {
            Some(h) => {
                let lib = path_join(&h, "Library");
                let support = path_join(&lib, "Application Support");
                Some(path_join(&support, "music-spectrum"))
            },
            None => None,
        },
        Platform::Other => match xdg {
            Some(x) => Some(path_join(&x, "music-spectrum")),
            None => match home {
                Some(h) => {
                    let config = path_join(&h, ".config");
                    Some(path_join(&config, "music-spectrum"))
                },
                None => None,
            },
        },
    }
}

/// Full path of the settings file, or a configuration error when no
/// configuration directory can be determined.
pub fn config_path(
    platform: Platform,
    appdata: Option<PathBuf>,
    home: Option<PathBuf>,
    xdg: Option<PathBuf>,
) -> (path: AppResult<PathBuf>)
    ensures
        match spec_config_dir(platform, appdata, home, xdg) {
            Some(d) => path == Ok::<PathBuf, AppError>(joined_path(d, "settings.json"@)),
            None => path matches Err(AppError::ConfigError(msg)) && msg@ == no_config_dir_message(),
        },
{
    match config_dir(platform, appdata, home, xdg) {
        Some(d) => Ok(path_join(&d, "settings.json")),
        None => Err(AppError::ConfigError(String::from_str("无法确定配置目录"))),
    }
}

} // verus!
