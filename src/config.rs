//! The service configuration, and the defaults of its optional settings.
use vstd::prelude::*;

verus! {

/// How long the watcher waits for a burst of events to settle, unless configured.
pub const DEFAULT_WATCHER_INTERVAL_MS: u64 = 1000;

/// The settings as the configuration file gives them.
#[derive(Debug)]
pub struct TomlConfig {
    pub addr: String,
    pub data_file_dir: Option<String>,
    pub watcher_interval_ms: Option<u64>,
}

/// The settings in effect.
#[derive(Clone, Debug)]
pub struct Config {
    pub addr: String,
    pub data_file_dir: String,
    pub watcher_interval_ms: u64,
}

impl Config {
    /// The settings in effect for `toml`, where `default_data_dir` is the
    /// data directory to use when the file names none.
    pub fn from_toml(toml: TomlConfig, default_data_dir: String) -> (r: Config)
        ensures
            r.addr == toml.addr,
            r.data_file_dir == match toml.data_file_dir {
                Some(d) => d,
                None => default_data_dir,
            },
            r.watcher_interval_ms == match toml.watcher_interval_ms {
                Some(ms) => ms,
                None => DEFAULT_WATCHER_INTERVAL_MS,
            },
    {
        Config {
            addr: toml.addr,
            data_file_dir: match toml.data_file_dir {
                Some(d) => d,
                None => default_data_dir,
            },
            watcher_interval_ms: match toml.watcher_interval_ms {
                Some(ms) => ms,
                None => DEFAULT_WATCHER_INTERVAL_MS,
            },
        }
    }
}

} // verus!
