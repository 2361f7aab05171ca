use presence_bridge::engine::{DiffKind, EngineAction, EngineConfig, EventEngine};
use presence_bridge::model::{PlaybackState, SourceApp, Track, TrackLinks};
use presence_bridge::providers::ProviderSnapshot;
use std::time::{SystemTime, UNIX_EPOCH};

fn cfg() -> EngineConfig {
    EngineConfig {
        playing_poll_ms: 1_000,
        paused_poll_ms: 7_000,
        stopped_poll_ms: 30_000,
        min_presence_update_ms: 15_000,
        debounce_ms: 500,
        enable_buttons: true,
        large_image: Some("app_icon".to_string()),
        large_text: Some("presence-bridge".to_string()),
        small_play_image: Some("play".to_string()),
        small_pause_image: Some("pause".to_string()),
    }
}

fn wall_now() -> i64 {
    SystemTime::now()
        .duration_since(UNIX_EPOCH)
        .map(|d| d.as_millis() as i64)
        .unwrap_or(0)
}

fn track_at(id: &str, playing: bool, position_ms: u64) -> Track {
    Track {
        id: id.to_string(),
        title: "Title".to_string(),
        artist: "Artist".to_string(),
        album: Some("Album".to_string()),
        duration_ms: Some(120_000),
        position_ms: Some(position_ms),
        is_playing: playing,
        source: SourceApp::Unknown,
        links: TrackLinks {
            apple_music: Some("https://example.com/apple".to_string()),
            spotify_search: Some("https://example.com/spotify".to_string()),
        },
        updated_at_ms: wall_now(),
    }
}

fn snapshot_at(id: &str, playing: bool, position_ms: u64) -> ProviderSnapshot {
    ProviderSnapshot {
        provider_name: "test",
        state: if playing {
            PlaybackState::Playing
        } else {
            PlaybackState::Paused
        },
        track: Some(track_at(id, playing, position_ms)),
        raw_state: None,
        last_error: None,
    }
}

fn snapshot(id: &str, playing: bool) -> ProviderSnapshot {
    snapshot_at(id, playing, 20_000)
}

fn start_of(action: &EngineAction) -> Option<i64> {
    match action {
        EngineAction::Send(p) => p.start_timestamp,
        _ => None,
    }
}

#[test]
fn detects_track_change() {
    let mut engine = EventEngine::new(cfg());
    let now: u64 = 1_000_000;

    let first = engine.tick(snapshot("1", true), now, wall_now());
    assert!(matches!(first.action, EngineAction::Send(_)));

    let second = engine.tick(snapshot("2", true), now + 1_000, wall_now());
    assert_eq!(second.diff, DiffKind::TrackChanged);
    assert!(matches!(second.action, EngineAction::Send(_)));
}

#[test]
fn debounces_rapid_play_pause_jitter() {
    let mut engine = EventEngine::new(cfg());
    let now: u64 = 1_000_000;

    let _ = engine.tick(snapshot("1", true), now, wall_now());
    let paused = engine.tick(snapshot("1", false), now + 100, wall_now());

    assert_eq!(paused.diff, DiffKind::Nothing);
    assert!(matches!(paused.action, EngineAction::Idle));
}

#[test]
fn keeps_stable_timestamp_during_same_track() {
    let mut engine = EventEngine::new(cfg());
    let now: u64 = 1_000_000;

    let first = engine.tick(snapshot("1", true), now, 100_000);
    let first_ts = start_of(&first.action);

    let second = engine.tick(snapshot("1", true), now + 16_000, 116_000);
    let second_ts = start_of(&second.action);

    assert_eq!(first_ts, second_ts);
}

#[test]
fn start_timestamp_example_stays_at_eighty() {
    let mut engine = EventEngine::new(cfg());
    let first = engine.tick(snapshot_at("1", true, 20_000), 0, 100_000);
    assert_eq!(start_of(&first.action), Some(80));
    let second = engine.tick(snapshot_at("1", true, 36_000), 16_000, 116_000);
    assert!(matches!(second.action, EngineAction::Send(_)));
    assert_eq!(start_of(&second.action), Some(80));
}

#[test]
fn first_send_builds_presence() {
    let mut engine = EventEngine::new(cfg());
    let out = engine.tick(snapshot_at("1", true, 20_000), 0, 100_000);
    assert_eq!(out.diff, DiffKind::TrackChanged);
    assert_eq!(out.next_poll_in_ms, 1_000);
    match out.action {
        EngineAction::Send(p) => {
            assert_eq!(p.activity_type, 2);
            assert_eq!(p.name, "Listening");
            assert_eq!(p.details, "Artist — Title");
            assert_eq!(p.state, "on Album");
            assert!(p.is_playing);
            assert_eq!(p.large_image.as_deref(), Some("app_icon"));
            assert_eq!(p.large_text.as_deref(), Some("presence-bridge"));
            assert_eq!(p.small_image.as_deref(), Some("play"));
            assert_eq!(p.small_text.as_deref(), Some("Playing"));
            assert_eq!(p.buttons.len(), 2);
            assert_eq!(p.buttons[0].label, "Open/Search Apple Music");
            assert_eq!(p.buttons[0].url, "https://example.com/apple");
            assert_eq!(p.buttons[1].label, "Search Spotify");
            assert_eq!(p.buttons[1].url, "https://example.com/spotify");
        }
        _ => panic!("expected a send"),
    }
}

#[test]
fn paused_presence_has_no_timestamp_and_no_buttons_when_disabled() {
    let mut config = cfg();
    config.enable_buttons = false;
    let mut engine = EventEngine::new(config);
    let mut snap = snapshot("1", false);
    if let Some(t) = snap.track.as_mut() {
        t.album = None;
    }
    let out = engine.tick(snap, 0, 100_000);
    assert_eq!(out.next_poll_in_ms, 7_000);
    match out.action {
        EngineAction::Send(p) => {
            assert_eq!(p.state, "Paused");
            assert_eq!(p.start_timestamp, None);
            assert_eq!(p.small_image.as_deref(), Some("pause"));
            assert_eq!(p.small_text.as_deref(), Some("Paused"));
            assert!(p.buttons.is_empty());
        }
        _ => panic!("expected a send"),
    }
}

#[test]
fn playing_without_album_says_playing() {
    let mut engine = EventEngine::new(cfg());
    let mut snap = snapshot("1", true);
    if let Some(t) = snap.track.as_mut() {
        t.album = None;
        t.links.apple_music = None;
    }
    let out = engine.tick(snap, 0, 100_000);
    match out.action {
        EngineAction::Send(p) => {
            assert_eq!(p.state, "Playing");
            assert_eq!(p.buttons.len(), 1);
            assert_eq!(p.buttons[0].label, "Search Spotify");
        }
        _ => panic!("expected a send"),
    }
}

#[test]
fn flicker_after_send_is_absorbed() {
    let mut engine = EventEngine::new(cfg());
    let first = engine.tick(snapshot("1", false), 10_000, 100_000);
    assert!(matches!(first.action, EngineAction::Send(_)));
    let second = engine.tick(snapshot("1", true), 10_499, 100_499);
    assert_eq!(second.diff, DiffKind::Nothing);
    assert!(matches!(second.action, EngineAction::Idle));
}

#[test]
fn state_change_after_window_is_sent() {
    let mut engine = EventEngine::new(cfg());
    let _ = engine.tick(snapshot("1", true), 10_000, 100_000);
    let paused = engine.tick(snapshot("1", false), 10_500, 100_500);
    assert_eq!(paused.diff, DiffKind::StateChanged);
    assert!(matches!(paused.action, EngineAction::Send(_)));
    let resumed = engine.tick(snapshot("1", true), 10_700, 100_700);
    assert_eq!(resumed.diff, DiffKind::Nothing);
    assert!(matches!(resumed.action, EngineAction::Idle));
}

#[test]
fn clear_is_sent_once() {
    let mut engine = EventEngine::new(cfg());
    let _ = engine.tick(snapshot("1", true), 0, 100_000);
    let gone = engine.tick(ProviderSnapshot::stopped("test"), 1_000, 101_000);
    assert_eq!(gone.diff, DiffKind::TrackChanged);
    assert!(matches!(gone.action, EngineAction::Clear));
    assert_eq!(gone.next_poll_in_ms, 30_000);
    let still = engine.tick(ProviderSnapshot::stopped("test"), 2_000, 102_000);
    assert_eq!(still.diff, DiffKind::Nothing);
    assert!(matches!(still.action, EngineAction::Idle));
    let back = engine.tick(snapshot("1", true), 3_000, 103_000);
    assert!(matches!(back.action, EngineAction::Send(_)));
}

#[test]
fn nothing_playing_from_start_does_nothing() {
    let mut engine = EventEngine::new(cfg());
    let out = engine.tick(ProviderSnapshot::stopped("test"), 0, 0);
    assert_eq!(out.diff, DiffKind::Nothing);
    assert!(matches!(out.action, EngineAction::Idle));
}

#[test]
fn keepalive_waits_for_the_interval() {
    let mut engine = EventEngine::new(cfg());
    let first = engine.tick(snapshot("1", true), 0, 100_000);
    assert!(matches!(first.action, EngineAction::Send(_)));
    let early = engine.tick(snapshot("1", true), 14_999, 114_999);
    assert_eq!(early.diff, DiffKind::Nothing);
    assert!(matches!(early.action, EngineAction::Idle));
    let due = engine.tick(snapshot("1", true), 15_000, 115_000);
    assert!(matches!(due.action, EngineAction::Send(_)));
}

#[test]
fn paused_track_gets_no_keepalive() {
    let mut engine = EventEngine::new(cfg());
    let _ = engine.tick(snapshot("1", false), 0, 100_000);
    let later = engine.tick(snapshot("1", false), 60_000, 160_000);
    assert!(matches!(later.action, EngineAction::Idle));
}

#[test]
fn timestamp_is_recomputed_on_resume() {
    let mut engine = EventEngine::new(cfg());
    let _ = engine.tick(snapshot_at("1", true, 20_000), 0, 100_000);
    let _ = engine.tick(snapshot_at("1", false, 30_000), 10_000, 110_000);
    let resumed = engine.tick(snapshot_at("1", true, 30_000), 20_000, 200_000);
    assert_eq!(resumed.diff, DiffKind::StateChanged);
    assert_eq!(start_of(&resumed.action), Some(170));
}

#[test]
fn wall_time_before_epoch_gives_no_timestamp() {
    let mut engine = EventEngine::new(cfg());
    let out = engine.tick(snapshot("1", true), 0, -5_000);
    assert!(matches!(out.action, EngineAction::Send(_)));
    assert_eq!(start_of(&out.action), None);
}

#[test]
fn config_update_keeps_history() {
    let mut engine = EventEngine::new(cfg());
    let _ = engine.tick(snapshot("1", true), 0, 100_000);
    let mut faster = cfg();
    faster.playing_poll_ms = 250;
    engine.update_config(faster);
    let out = engine.tick(snapshot("1", true), 1_000, 101_000);
    assert_eq!(out.diff, DiffKind::Nothing);
    assert_eq!(out.next_poll_in_ms, 250);
    assert!(matches!(out.action, EngineAction::Idle));
}

#[test]
fn engine_config_copies_app_config() {
    let app = presence_bridge::config::AppConfig::default();
    let c = EngineConfig::from_app_config(&app);
    assert_eq!(c.playing_poll_ms, 1_000);
    assert_eq!(c.paused_poll_ms, 7_000);
    assert_eq!(c.stopped_poll_ms, 30_000);
    assert_eq!(c.min_presence_update_ms, 15_000);
    assert_eq!(c.debounce_ms, 500);
    assert!(c.enable_buttons);
    assert_eq!(c.large_image.as_deref(), Some("app_icon"));
    assert_eq!(c.small_pause_image.as_deref(), Some("pause"));
}

#[test]
fn asset_entries_skip_absent_values() {
    let mut engine = EventEngine::new(EngineConfig {
        large_text: None,
        small_pause_image: None,
        ..cfg()
    });
    let out = engine.tick(snapshot("1", false), 0, 100_000);
    match out.action {
        EngineAction::Send(p) => {
            let entries = p.asset_entries();
            assert_eq!(
                entries,
                vec![
                    ("large_image".to_string(), "app_icon".to_string()),
                    ("small_text".to_string(), "Paused".to_string()),
                ]
            );
        }
        _ => panic!("expected a send"),
    }
}
