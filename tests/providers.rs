use presence_bridge::model::{PlaybackState, SourceApp, Track, TrackLinks};
use presence_bridge::providers::{
    apple_music_provider, build_provider_chain, mpris_provider, windows_provider, AppleMusicProvider,
    ChainPoll, MprisProvider, NowPlayingProvider, NullProvider, Platform, ProviderChain,
    ProviderKind, ProviderSnapshot, WindowsGsmtcProvider,
};

fn playing(name: &'static str) -> ProviderSnapshot {
    ProviderSnapshot {
        provider_name: name,
        state: PlaybackState::Playing,
        track: Some(Track {
            id: "artist:title".to_string(),
            title: "title".to_string(),
            artist: "artist".to_string(),
            album: None,
            duration_ms: None,
            position_ms: None,
            is_playing: true,
            source: SourceApp::Mpris,
            links: TrackLinks {
                apple_music: None,
                spotify_search: None,
            },
            updated_at_ms: 0,
        }),
        raw_state: Some("Playing".to_string()),
        last_error: None,
    }
}

#[test]
fn chain_prefers_first_meaningful_snapshot() {
    let mut round = ChainPoll::new();
    assert!(round.offer("a", Err("boom".to_string())).is_none());
    assert!(round
        .offer("b", Ok(ProviderSnapshot::stopped("b")))
        .is_none());
    let best = round.offer("c", Ok(playing("c"))).expect("c reports a track");
    assert_eq!(best.provider_name, "c");
    assert_eq!(best.state, PlaybackState::Playing);
    assert!(best.track.is_some());
}

#[test]
fn chain_falls_back_to_first_outcome() {
    let mut round = ChainPoll::new();
    assert!(round.offer("a", Err("boom".to_string())).is_none());
    assert!(round
        .offer("b", Ok(ProviderSnapshot::stopped("b")))
        .is_none());
    let fallback = round.finish();
    assert_eq!(fallback.provider_name, "a");
    assert_eq!(fallback.state, PlaybackState::Stopped);
    assert!(fallback.track.is_none());
    assert_eq!(fallback.raw_state.as_deref(), Some("error"));
    assert_eq!(fallback.last_error.as_deref(), Some("boom"));
}

#[test]
fn chain_falls_back_to_first_stopped_snapshot() {
    let mut round = ChainPoll::new();
    assert!(round
        .offer("b", Ok(ProviderSnapshot::stopped("b")))
        .is_none());
    assert!(round.offer("c", Err("later".to_string())).is_none());
    let fallback = round.finish();
    assert_eq!(fallback.provider_name, "b");
    assert_eq!(fallback.raw_state.as_deref(), Some("stopped"));
    assert!(fallback.last_error.is_none());
}

#[test]
fn empty_round_reports_none() {
    let fallback = ChainPoll::new().finish();
    assert_eq!(fallback.provider_name, "none");
    assert_eq!(fallback.state, PlaybackState::Stopped);
    assert!(fallback.track.is_none());
}

#[test]
fn paused_snapshot_without_track_still_wins() {
    let mut round = ChainPoll::new();
    let mut snap = ProviderSnapshot::stopped("p");
    snap.state = PlaybackState::Paused;
    let best = round.offer("p", Ok(snap)).expect("a paused state is meaningful");
    assert_eq!(best.state, PlaybackState::Paused);
}

#[test]
fn snapshot_constructors() {
    let s = ProviderSnapshot::stopped("x");
    assert_eq!(s.provider_name, "x");
    assert_eq!(s.state, PlaybackState::Stopped);
    assert_eq!(s.raw_state.as_deref(), Some("stopped"));
    let e = ProviderSnapshot::with_error("y", "bad".to_string());
    assert_eq!(e.provider_name, "y");
    assert_eq!(e.raw_state.as_deref(), Some("error"));
    assert_eq!(e.last_error.as_deref(), Some("bad"));
    assert!(e.track.is_none());
}

#[test]
fn chain_keeps_available_sources_in_priority_order() {
    let priority = vec![
        "mpris".to_string(),
        "apple_music".to_string(),
        "bogus".to_string(),
        "windows".to_string(),
    ];
    let linux = build_provider_chain(&priority, Platform::Linux);
    assert_eq!(linux.provider_names(), vec!["mpris"]);
    let mac = build_provider_chain(&priority, Platform::MacOs);
    assert_eq!(mac.provider_names(), vec!["apple_music"]);
    let windows = build_provider_chain(&priority, Platform::Windows);
    assert_eq!(windows.provider_names(), vec!["windows"]);
}

#[test]
fn chain_falls_back_to_null_source() {
    let priority = vec!["apple_music".to_string()];
    let chain = build_provider_chain(&priority, Platform::Linux);
    assert_eq!(chain.provider_names(), vec!["null"]);
    assert_eq!(chain.providers(), &vec![ProviderKind::Null]);
    let empty = build_provider_chain(&Vec::new(), Platform::Other);
    assert_eq!(empty.provider_names(), vec!["null"]);
}

#[test]
fn platform_availability() {
    assert_eq!(mpris_provider(Platform::Linux), Some(ProviderKind::Mpris));
    assert_eq!(mpris_provider(Platform::MacOs), None);
    assert_eq!(apple_music_provider(Platform::MacOs), Some(ProviderKind::AppleMusic));
    assert_eq!(apple_music_provider(Platform::Windows), None);
    assert_eq!(windows_provider(Platform::Windows), Some(ProviderKind::Windows));
    assert_eq!(windows_provider(Platform::Other), None);
}

#[test]
fn provider_identities() {
    assert_eq!(AppleMusicProvider::new().name(), "apple_music");
    assert_eq!(AppleMusicProvider::new().source(), SourceApp::AppleMusicMac);
    assert_eq!(MprisProvider::new().name(), "mpris");
    assert_eq!(MprisProvider::new().source(), SourceApp::Mpris);
    assert_eq!(WindowsGsmtcProvider::new().name(), "windows");
    assert_eq!(WindowsGsmtcProvider::new().source(), SourceApp::WindowsMediaSession);
    assert_eq!(NullProvider.name(), "null");
    assert_eq!(NullProvider.snapshot().provider_name, "null");
    let chain = ProviderChain::new(vec![ProviderKind::Mpris, ProviderKind::AppleMusic]);
    assert_eq!(chain.provider_names(), vec!["mpris", "apple_music"]);
}
