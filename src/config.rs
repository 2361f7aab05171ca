//! Application configuration and its defaults.

use vstd::prelude::*;

verus! {

/// The configuration schema version this library writes.
pub fn default_schema_version() -> (r: u32)
    ensures
        r == 1,
{
    1
}

/// Poll cadences and timing windows, all in milliseconds.
#[derive(Debug, Clone)]
pub struct ConfigIntervals {
    pub playing_poll_ms: u64,
    pub paused_poll_ms: u64,
    pub stopped_poll_ms: u64,
    pub presence_min_update_ms: u64,
    pub debounce_ms: u64,
    pub file_watch_poll_ms: u64,
}

impl Default for ConfigIntervals {
    fn default() -> (r: Self)
        ensures
            r.playing_poll_ms == 1_000,
            r.paused_poll_ms == 7_000,
            r.stopped_poll_ms == 30_000,
            r.presence_min_update_ms == 15_000,
            r.debounce_ms == 500,
            r.file_watch_poll_ms == 10_000,
    {
        ConfigIntervals {
            playing_poll_ms: 1_000,
            paused_poll_ms: 7_000,
            stopped_poll_ms: 30_000,
            presence_min_update_ms: 15_000,
            debounce_ms: 500,
            file_watch_poll_ms: 10_000,
        }
    }
}

/// Image keys and tooltip shown beside the presence.
#[derive(Debug, Clone)]
pub struct AssetsConfig {
    pub large_image: Option<String>,
    pub large_text: Option<String>,
    pub small_play_image: Option<String>,
    pub small_pause_image: Option<String>,
}

/// `Some(s)` with the characters of `lit`.
fn some_text(lit: &str) -> (r: Option<String>)
    ensures
        r matches Some(s) && s@ == lit@,
{
    Some(String::from_str(lit))
}

impl Default for AssetsConfig {
    fn default() -> (r: Self)
        ensures
            r.large_image matches Some(s) && s@ == "app_icon"@,
            r.large_text matches Some(s) && s@ == "presence-bridge"@,
            r.small_play_image matches Some(s) && s@ == "play"@,
            r.small_pause_image matches Some(s) && s@ == "pause"@,
    {
        AssetsConfig {
            large_image: some_text("app_icon"),
            large_text: some_text("presence-bridge"),
            small_play_image: some_text("play"),
            small_pause_image: some_text("pause"),
        }
    }
}

/// Everything the bridge reads from its configuration file.
#[derive(Debug, Clone)]
pub struct AppConfig {
    pub schema_version: u32,
    pub discord_app_id: String,
    pub provider_priority: Vec<String>,
    pub intervals: ConfigIntervals,
    pub enable_buttons: bool,
    pub log_level: String,
    pub assets: AssetsConfig,
}

impl Default for AppConfig {
    fn default() -> (r: Self)
        ensures
            r.schema_version == 1,
            r.discord_app_id@ == "YOUR_DISCORD_APP_ID"@,
            r.provider_priority@.len() == 3,
            r.provider_priority@[0]@ == "apple_music"@,
            r.provider_priority@[1]@ == "windows"@,
            r.provider_priority@[2]@ == "mpris"@,
            r.intervals.playing_poll_ms == 1_000,
            r.intervals.paused_poll_ms == 7_000,
            r.intervals.stopped_poll_ms == 30_000,
            r.intervals.presence_min_update_ms == 15_000,
            r.intervals.debounce_ms == 500,
            r.intervals.file_watch_poll_ms == 10_000,
            r.enable_buttons,
            r.log_level@ == "info"@,
            r.assets.large_image matches Some(s) && s@ == "app_icon"@,
            r.assets.large_text matches Some(s) && s@ == "presence-bridge"@,
            r.assets.small_play_image matches Some(s) && s@ == "play"@,
            r.assets.small_pause_image matches Some(s) && s@ == "pause"@,
    {
        let mut priority: Vec<String> = Vec::new();
        priority.push(String::from_str("apple_music"));
        priority.push(String::from_str("windows"));
        priority.push(String::from_str("mpris"));
        AppConfig {
            schema_version: default_schema_version(),
            discord_app_id: String::from_str("YOUR_DISCORD_APP_ID"),
            provider_priority: priority,
            intervals: ConfigIntervals::default(),
            enable_buttons: true,
            log_level: String::from_str("info"),
            assets: AssetsConfig::default(),
        }
    }
}

} // verus!
