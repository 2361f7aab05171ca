//! The event engine: a per-tick decision function that classifies changes,
//! absorbs play/pause flicker, keeps a stable elapsed-time anchor and decides
//! what, if anything, to publish.

use crate::bytes::{le_bytes, le_seq};
use crate::config::AppConfig;
use crate::model::{clone_text, opt_chars, PlaybackState, Track, TrackLinks};
use crate::providers::ProviderSnapshot;
use std::collections::hash_map::DefaultHasher;
use std::hash::Hasher;
use vstd::prelude::*;
use vstd::std_specs::hash::DefaultHasherAdditionalSpecFns;
use vstd::utf8::encode_utf8;

verus! {

/// How the current track relates to the one seen on the previous tick.
#[derive(Debug, Clone, Copy, PartialEq, Eq, Structural)]
pub enum DiffKind {
    TrackChanged,
    StateChanged,
    Nothing,
}

/// A clickable link shown under the presence.
#[derive(Debug, Clone)]
pub struct PresenceButton {
    pub label: String,
    pub url: String,
}

/// The assembled rich-presence payload.
#[derive(Debug, Clone)]
pub struct PresenceState {
    pub activity_type: u8,
    pub name: String,
    pub details: String,
    pub state: String,
    pub start_timestamp: Option<i64>,
    pub is_playing: bool,
    pub large_image: Option<String>,
    pub large_text: Option<String>,
    pub small_image: Option<String>,
    pub small_text: Option<String>,
    pub buttons: Vec<PresenceButton>,
}

/// A presence payload as text and numbers.
pub struct PresenceView {
    pub activity_type: u8,
    pub name: Seq<char>,
    pub details: Seq<char>,
    pub state: Seq<char>,
    pub start_timestamp: Option<i64>,
    pub is_playing: bool,
    pub large_image: Option<Seq<char>>,
    pub large_text: Option<Seq<char>>,
    pub small_image: Option<Seq<char>>,
    pub small_text: Option<Seq<char>>,
    /// Label and link of each button, in display order.
    pub buttons: Seq<(Seq<char>, Seq<char>)>,
}

impl View for PresenceState {
    type V = PresenceView;

    open spec fn view(&self) -> PresenceView {
        PresenceView {
            activity_type: self.activity_type,
            name: self.name@,
            details: self.details@,
            state: self.state@,
            start_timestamp: self.start_timestamp,
            is_playing: self.is_playing,
            large_image: opt_chars(self.large_image),
            large_text: opt_chars(self.large_text),
            small_image: opt_chars(self.small_image),
            small_text: opt_chars(self.small_text),
            buttons: self.buttons@.map_values(|b: PresenceButton| (b.label@, b.url@)),
        }
    }
}

/// A key and its text, when the text is present.
pub open spec fn asset_entry(key: Seq<char>, v: Option<Seq<char>>) -> Seq<(Seq<char>, Seq<char>)> {
    match v {
        Some(t) => seq![(key, t)],
        None => Seq::empty(),
    }
}

/// The image keys and tooltips a presence shows, in wire order, omitting
/// absent ones.
pub open spec fn asset_entries_spec(p: PresenceView) -> Seq<(Seq<char>, Seq<char>)> {
    asset_entry("large_image"@, p.large_image) + asset_entry("large_text"@, p.large_text)
        + asset_entry("small_image"@, p.small_image) + asset_entry("small_text"@, p.small_text)
}

fn push_asset(entries: &mut Vec<(String, String)>, key: &str, v: &Option<String>)
    ensures
        final(entries)@.map_values(|e: (String, String)| (e.0@, e.1@)) == old(entries)@.map_values(
            |e: (String, String)| (e.0@, e.1@),
        ) + asset_entry(key@, opt_chars(*v)),
{
    if let Some(t) = v {
        entries.push((String::from_str(key), t.clone()));
    }
    assert(entries@.map_values(|e: (String, String)| (e.0@, e.1@)) =~= old(entries)@.map_values(
        |e: (String, String)| (e.0@, e.1@),
    ) + asset_entry(key@, opt_chars(*v)));
}

impl PresenceState {
    /// The image keys and tooltips to show, each as key and text, in the
    /// order large image, large text, small image, small text; absent ones
    /// are left out.
    pub fn asset_entries(&self) -> (r: Vec<(String, String)>)
        ensures
            r@.map_values(|e: (String, String)| (e.0@, e.1@)) == asset_entries_spec(self@),
    {
        let mut entries: Vec<(String, String)> = Vec::new();
        push_asset(&mut entries, "large_image", &self.large_image);
        push_asset(&mut entries, "large_text", &self.large_text);
        push_asset(&mut entries, "small_image", &self.small_image);
        push_asset(&mut entries, "small_text", &self.small_text);
        assert(entries@.map_values(|e: (String, String)| (e.0@, e.1@)) =~= asset_entries_spec(self@));
        entries
    }
}

/// What the driver should do with the presence after a tick.
#[derive(Debug, Clone)]
pub enum EngineAction {
    Send(PresenceState),
    Clear,
    Idle,
}

/// An engine action with its payload as text.
pub enum ActionView {
    Send(PresenceView),
    Clear,
    Idle,
}

impl View for EngineAction {
    type V = ActionView;

    open spec fn view(&self) -> ActionView {
        match self {
            EngineAction::Send(p) => ActionView::Send(p@),
            EngineAction::Clear => ActionView::Clear,
            EngineAction::Idle => ActionView::Idle,
        }
    }
}

/// The result of one tick.
#[derive(Debug, Clone)]
pub struct EngineOutput {
    pub action: EngineAction,
    /// Milliseconds to wait before the next poll.
    pub next_poll_in_ms: u64,
    pub diff: DiffKind,
}

/// Engine settings; every duration is in milliseconds.
#[derive(Debug, Clone)]
pub struct EngineConfig {
    pub playing_poll_ms: u64,
    pub paused_poll_ms: u64,
    pub stopped_poll_ms: u64,
    pub min_presence_update_ms: u64,
    pub debounce_ms: u64,
    pub enable_buttons: bool,
    pub large_image: Option<String>,
    pub large_text: Option<String>,
    pub small_play_image: Option<String>,
    pub small_pause_image: Option<String>,
}

impl EngineConfig {
    /// The engine settings that an application configuration holds.
    pub fn from_app_config(cfg: &AppConfig) -> (r: Self)
        ensures
            r.playing_poll_ms == cfg.intervals.playing_poll_ms,
            r.paused_poll_ms == cfg.intervals.paused_poll_ms,
            r.stopped_poll_ms == cfg.intervals.stopped_poll_ms,
            r.min_presence_update_ms == cfg.intervals.presence_min_update_ms,
            r.debounce_ms == cfg.intervals.debounce_ms,
            r.enable_buttons == cfg.enable_buttons,
            r.large_image == cfg.assets.large_image,
            r.large_text == cfg.assets.large_text,
            r.small_play_image == cfg.assets.small_play_image,
            r.small_pause_image == cfg.assets.small_pause_image,
    {
        EngineConfig {
            playing_poll_ms: cfg.intervals.playing_poll_ms,
            paused_poll_ms: cfg.intervals.paused_poll_ms,
            stopped_poll_ms: cfg.intervals.stopped_poll_ms,
            min_presence_update_ms: cfg.intervals.presence_min_update_ms,
            debounce_ms: cfg.intervals.debounce_ms,
            enable_buttons: cfg.enable_buttons,
            large_image: clone_text(&cfg.assets.large_image),
            large_text: clone_text(&cfg.assets.large_text),
            small_play_image: clone_text(&cfg.assets.small_play_image),
            small_pause_image: clone_text(&cfg.assets.small_pause_image),
        }
    }
}

/// The engine's configuration and history.
pub struct EngineModel {
    pub cfg: EngineConfig,
    /// The track seen on the previous tick.
    pub last_track: Option<Track>,
    /// Content hash of the presence last sent.
    pub last_sent_hash: Option<u64>,
    /// Monotonic time of the last send or clear.
    pub last_sent_at: Option<u64>,
    /// Monotonic time of the last accepted play/pause flip.
    pub last_flip_at: Option<u64>,
    /// Start timestamp, in epoch seconds, shown while a track plays.
    pub stable_start: Option<i64>,
}

// ---------------------------------------------------------------------------
// The engine's rules, stated over values.
// ---------------------------------------------------------------------------

/// The change from `prev` to `curr`.
pub open spec fn classify(prev: Option<Track>, curr: Option<Track>) -> DiffKind {
    match (prev, curr) {
        (None, None) => DiffKind::Nothing,
        (Some(p), Some(c)) => if p.id@ != c.id@ {
            DiffKind::TrackChanged
        } else if p.is_playing != c.is_playing {
            DiffKind::StateChanged
        } else {
            DiffKind::Nothing
        },
        _ => DiffKind::TrackChanged,
    }
}

/// Milliseconds from `at` to `now` on the monotonic clock, zero if `at` is later.
pub open spec fn elapsed_ms(now: u64, at: u64) -> int {
    if now >= at {
        now - at
    } else {
        0
    }
}

/// `at` is set and lies less than `window` milliseconds before `now`.
pub open spec fn within(at: Option<u64>, now: u64, window: u64) -> bool {
    match at {
        Some(a) => elapsed_ms(now, a) < window,
        None => false,
    }
}

/// A play/pause flip that comes too soon after the last flip or send.
pub open spec fn is_flicker(m: EngineModel, curr: Option<Track>, now: u64) -> bool {
    &&& classify(m.last_track, curr) == DiffKind::StateChanged
    &&& within(m.last_flip_at, now, m.cfg.debounce_ms) || within(
        m.last_sent_at,
        now,
        m.cfg.debounce_ms,
    )
}

/// The diff a tick reports: the classification, or `Nothing` for a flicker.
pub open spec fn reported_diff(m: EngineModel, curr: Option<Track>, now: u64) -> DiffKind {
    if is_flicker(m, curr, now) {
        DiffKind::Nothing
    } else {
        classify(m.last_track, curr)
    }
}

/// The position of `t` in whole seconds.
pub open spec fn position_secs(t: Track) -> int {
    match t.position_ms {
        Some(p) => p as int / 1000,
        None => 0,
    }
}

/// The start timestamp implied by `t` at wall time `wall_ms`: absent unless
/// the track plays and the time is not before the epoch.
pub open spec fn start_from(t: Track, wall_ms: i64) -> Option<i64> {
    if !t.is_playing || wall_ms < 0 {
        None
    } else {
        Some((wall_ms as int / 1000 - position_secs(t)) as i64)
    }
}

/// The anchor after a tick: kept while the same track keeps playing,
/// recomputed when playback (re)starts, cleared otherwise.
pub open spec fn next_anchor(m: EngineModel, curr: Option<Track>, wall_ms: i64) -> Option<i64> {
    match curr {
        Some(t) => if !t.is_playing {
            None
        } else if m.last_track matches Some(p) && p.id@ == t.id@ && m.stable_start is Some {
            m.stable_start
        } else {
            start_from(t, wall_ms)
        },
        None => None,
    }
}

pub open spec fn text_if(b: bool, yes: Option<String>, no: Option<String>) -> Option<Seq<char>> {
    if b {
        opt_chars(yes)
    } else {
        opt_chars(no)
    }
}

/// One button per known link, when buttons are enabled.
pub open spec fn buttons_for(enabled: bool, links: TrackLinks) -> Seq<(Seq<char>, Seq<char>)> {
    if !enabled {
        Seq::empty()
    } else {
        let apple = match links.apple_music {
            Some(u) => seq![("Open/Search Apple Music"@, u@)],
            None => Seq::empty(),
        };
        let spotify = match links.spotify_search {
            Some(u) => seq![("Search Spotify"@, u@)],
            None => Seq::empty(),
        };
        apple + spotify
    }
}

/// The second line of the presence.
pub open spec fn state_line(t: Track) -> Seq<char> {
    if !t.is_playing {
        "Paused"@
    } else {
        match t.album {
            Some(a) => "on "@ + a@,
            None => "Playing"@,
        }
    }
}

/// The presence shown for `t` with start timestamp `anchor`.
pub open spec fn presence_for(cfg: EngineConfig, t: Track, anchor: Option<i64>) -> PresenceView {
    PresenceView {
        activity_type: 2,
        name: "Listening"@,
        details: t.artist@ + " — "@ + t.title@,
        state: state_line(t),
        start_timestamp: if t.is_playing {
            anchor
        } else {
            None
        },
        is_playing: t.is_playing,
        large_image: opt_chars(cfg.large_image),
        large_text: opt_chars(cfg.large_text),
        small_image: text_if(t.is_playing, cfg.small_play_image, cfg.small_pause_image),
        small_text: Some(
            if t.is_playing {
                "Playing"@
            } else {
                "Paused"@
            },
        ),
        buttons: buttons_for(cfg.enable_buttons, t.links),
    }
}

/// No send yet, or the minimum update interval has passed since the last one.
pub open spec fn keepalive_due(m: EngineModel, now: u64) -> bool {
    match m.last_sent_at {
        Some(a) => elapsed_ms(now, a) >= m.cfg.min_presence_update_ms,
        None => true,
    }
}

/// The action a tick takes.
pub open spec fn action_for(m: EngineModel, curr: Option<Track>, now: u64, wall_ms: i64) -> ActionView {
    if is_flicker(m, curr, now) {
        ActionView::Idle
    } else {
        match curr {
            Some(t) => if classify(m.last_track, curr) != DiffKind::Nothing || (t.is_playing
                && keepalive_due(m, now)) {
                ActionView::Send(presence_for(m.cfg, t, next_anchor(m, curr, wall_ms)))
            } else {
                ActionView::Idle
            },
            None => if m.last_track is Some {
                ActionView::Clear
            } else {
                ActionView::Idle
            },
        }
    }
}

pub open spec fn bool_byte(b: bool) -> u8 {
    if b {
        1
    } else {
        0
    }
}

pub open spec fn text_chunks(o: Option<Seq<char>>) -> Seq<Seq<u8>> {
    match o {
        Some(s) => seq![seq![1u8], encode_utf8(s)],
        None => seq![seq![0u8]],
    }
}

pub open spec fn stamp_chunks(o: Option<i64>) -> Seq<Seq<u8>> {
    match o {
        Some(v) => seq![seq![1u8], le_seq((v as u64) as nat, 8)],
        None => seq![seq![0u8]],
    }
}

pub open spec fn button_chunks(bs: Seq<(Seq<char>, Seq<char>)>) -> Seq<Seq<u8>>
    decreases bs.len(),
{
    if bs.len() == 0 {
        Seq::empty()
    } else {
        let last = bs.last();
        button_chunks(bs.drop_last()) + seq![encode_utf8(last.0), encode_utf8(last.1)]
    }
}

/// The byte strings fed to the hasher for a presence, in order.
pub open spec fn digest_input(p: PresenceView) -> Seq<Seq<u8>> {
    seq![encode_utf8(p.details), seq![p.activity_type], encode_utf8(p.name), encode_utf8(p.state)]
        + stamp_chunks(p.start_timestamp) + seq![seq![bool_byte(p.is_playing)]] + text_chunks(
        p.large_image,
    ) + text_chunks(p.large_text) + text_chunks(p.small_image) + text_chunks(p.small_text)
        + button_chunks(p.buttons)
}

/// The content hash of a presence.
pub open spec fn presence_hash(p: PresenceView) -> u64 {
    DefaultHasher::spec_finish(digest_input(p))
}

/// The engine after a tick.
pub open spec fn next_model(m: EngineModel, curr: Option<Track>, now: u64, wall_ms: i64) -> EngineModel {
    let act = action_for(m, curr, now, wall_ms);
    EngineModel {
        cfg: m.cfg,
        last_track: curr,
        last_sent_hash: match act {
            ActionView::Send(p) => Some(presence_hash(p)),
            ActionView::Clear => None,
            ActionView::Idle => m.last_sent_hash,
        },
        last_sent_at: match act {
            ActionView::Idle => m.last_sent_at,
            _ => Some(now),
        },
        last_flip_at: if !is_flicker(m, curr, now) && classify(m.last_track, curr)
            == DiffKind::StateChanged {
            Some(now)
        } else {
            m.last_flip_at
        },
        stable_start: next_anchor(m, curr, wall_ms),
    }
}

/// The poll delay configured for a playback state.
pub open spec fn poll_delay(cfg: EngineConfig, state: PlaybackState) -> u64 {
    match state {
        PlaybackState::Playing => cfg.playing_poll_ms,
        PlaybackState::Paused => cfg.paused_poll_ms,
        PlaybackState::Stopped => cfg.stopped_poll_ms,
    }
}


// ---------------------------------------------------------------------------
// The engine.
// ---------------------------------------------------------------------------

/// The per-tick decision function and the history it keeps between ticks.
pub struct EventEngine {
    cfg: EngineConfig,
    last_track: Option<Track>,
    last_sent_hash: Option<u64>,
    last_sent_at: Option<u64>,
    last_state_flip_at: Option<u64>,
    stable_start_timestamp: Option<i64>,
}

impl View for EventEngine {
    type V = EngineModel;

    closed spec fn view(&self) -> EngineModel {
        EngineModel {
            cfg: self.cfg,
            last_track: self.last_track,
            last_sent_hash: self.last_sent_hash,
            last_sent_at: self.last_sent_at,
            last_flip_at: self.last_state_flip_at,
            stable_start: self.stable_start_timestamp,
        }
    }
}

/// `at` is set and lies less than `window` milliseconds before `now`.
fn recent(at: Option<u64>, now: u64, window: u64) -> (r: bool)
    ensures
        r == within(at, now, window),
{
    match at {
        Some(a) => {
            let gap: u64 = if now >= a {
                now - a
            } else {
                0
            };
            gap < window
        },
        None => false,
    }
}

/// The start timestamp implied by `track` at wall time `now_wall_ms`.
fn compute_start_timestamp(track: &Track, now_wall_ms: i64) -> (r: Option<i64>)
    ensures
        r == start_from(*track, now_wall_ms),
{
    if !track.is_playing || now_wall_ms < 0 {
        return None;
    }
    let now_epoch: u64 = (now_wall_ms as u64) / 1000;
    let pos_ms: u64 = match track.position_ms {
        Some(p) => p,
        None => 0,
    };
    let pos_sec: u64 = pos_ms / 1000;
    Some(now_epoch as i64 - pos_sec as i64)
}

/// A text value: `yes` when `b`, else `no`.
fn pick_text(b: bool, yes: &Option<String>, no: &Option<String>) -> (r: Option<String>)
    ensures
        opt_chars(r) == text_if(b, *yes, *no),
{
    if b {
        clone_text(yes)
    } else {
        clone_text(no)
    }
}

fn one_byte(b: u8) -> (r: Vec<u8>)
    ensures
        r@ == seq![b],
{
    let mut v: Vec<u8> = Vec::new();
    v.push(b);
    assert(v@ =~= seq![b]);
    v
}

fn write_byte(h: &mut DefaultHasher, b: u8)
    ensures
        final(h)@ == old(h)@.push(seq![b]),
{
    let v = one_byte(b);
    h.write(v.as_slice());
}

fn write_str(h: &mut DefaultHasher, s: &String)
    ensures
        final(h)@ == old(h)@.push(encode_utf8(s@)),
{
    let t = s.as_str();
    let bytes = t.as_bytes();
    assert(bytes@ == encode_utf8(s@));
    h.write(bytes);
}

fn write_text(h: &mut DefaultHasher, o: &Option<String>)
    ensures
        final(h)@ == old(h)@ + text_chunks(opt_chars(*o)),
{
    match o {
        Some(s) => {
            write_byte(h, 1);
            write_str(h, s);
            assert(h@ =~= old(h)@ + seq![seq![1u8], encode_utf8(s@)]);
        },
        None => {
            write_byte(h, 0);
            assert(h@ =~= old(h)@ + seq![seq![0u8]]);
        },
    }
}

fn write_stamp(h: &mut DefaultHasher, o: Option<i64>)
    ensures
        final(h)@ == old(h)@ + stamp_chunks(o),
{
    match o {
        Some(v) => {
            write_byte(h, 1);
            let bytes = le_bytes(v as u64, 8);
            h.write(bytes.as_slice());
            assert(h@ =~= old(h)@ + seq![seq![1u8], le_seq((v as u64) as nat, 8)]);
        },
        None => {
            write_byte(h, 0);
            assert(h@ =~= old(h)@ + seq![seq![0u8]]);
        },
    }
}

/// The content hash of a presence.
fn hash_presence(state: &PresenceState) -> (r: u64)
    ensures
        r == presence_hash(state@),
{
    let mut h = DefaultHasher::new();
    write_str(&mut h, &state.details);
    write_byte(&mut h, state.activity_type);
    write_str(&mut h, &state.name);
    write_str(&mut h, &state.state);
    assert(h@ =~= seq![
        encode_utf8(state@.details),
        seq![state.activity_type],
        encode_utf8(state@.name),
        encode_utf8(state@.state),
    ]);
    write_stamp(&mut h, state.start_timestamp);
    write_byte(&mut h, if state.is_playing { 1u8 } else { 0u8 });
    write_text(&mut h, &state.large_image);
    write_text(&mut h, &state.large_text);
    write_text(&mut h, &state.small_image);
    write_text(&mut h, &state.small_text);
    let ghost base = h@;
    let ghost bs = state@.buttons;
    let mut i: usize = 0;
    while i < state.buttons.len()
        invariant
            i <= state.buttons@.len(),
            bs == state@.buttons,
            h@ == base + button_chunks(bs.subrange(0, i as int)),
        decreases state.buttons@.len() - i,
    {
        let b = &state.buttons[i];
        write_str(&mut h, &b.label);
        write_str(&mut h, &b.url);
        proof {
            assert(bs.subrange(0, i + 1).drop_last() =~= bs.subrange(0, i as int));
            assert(bs.subrange(0, i + 1).last() == bs[i as int]);
            assert(h@ =~= base + button_chunks(bs.subrange(0, i + 1)));
        }
        i = i + 1;
    }
    assert(bs.subrange(0, bs.len() as int) =~= bs);
    assert(h@ =~= digest_input(state@));
    h.finish()
}

impl EventEngine {
    /// A fresh engine with no history.
    pub fn new(cfg: EngineConfig) -> (r: Self)
        ensures
            r@ == (EngineModel {
                cfg,
                last_track: None,
                last_sent_hash: None,
                last_sent_at: None,
                last_flip_at: None,
                stable_start: None,
            }),
    {
        EventEngine {
            cfg,
            last_track: None,
            last_sent_hash: None,
            last_sent_at: None,
            last_state_flip_at: None,
            stable_start_timestamp: None,
        }
    }

    /// Replaces the configuration and keeps the history.
    pub fn update_config(&mut self, cfg: EngineConfig)
        ensures
            final(self)@ == (EngineModel { cfg, ..old(self)@ }),
    {
        self.cfg = cfg;
    }

    /// Consumes one snapshot at monotonic time `now_mono_ms` and wall time
    /// `now_wall_ms` (milliseconds relative to the Unix epoch), and says what
    /// to publish, when to poll next, and how the track changed.
    pub fn tick(&mut self, snapshot: ProviderSnapshot, now_mono_ms: u64, now_wall_ms: i64) -> (out:
        EngineOutput)
        ensures
            out.action@ == action_for(old(self)@, snapshot.track, now_mono_ms, now_wall_ms),
            out.diff == reported_diff(old(self)@, snapshot.track, now_mono_ms),
            out.next_poll_in_ms == poll_delay(old(self)@.cfg, snapshot.state),
            final(self)@ == next_model(old(self)@, snapshot.track, now_mono_ms, now_wall_ms),
    {
        let ghost m = self@;
        let next_poll_in_ms = self.next_poll(snapshot.state);
        let current = snapshot.track;
        let classified = self.compute_diff(&current);
        let flicker = match classified {
            DiffKind::StateChanged => recent(self.last_state_flip_at, now_mono_ms, self.cfg.debounce_ms)
                || recent(self.last_sent_at, now_mono_ms, self.cfg.debounce_ms),
            _ => false,
        };
        let diff = if flicker {
            DiffKind::Nothing
        } else {
            classified
        };

        let anchor = match &current {
            Some(track) => {
                if track.is_playing {
                    let keep = match &self.last_track {
                        Some(prev) => prev.id == track.id && self.stable_start_timestamp.is_some(),
                        None => false,
                    };
                    if keep {
                        self.stable_start_timestamp
                    } else {
                        compute_start_timestamp(track, now_wall_ms)
                    }
                } else {
                    None
                }
            },
            None => None,
        };
        self.stable_start_timestamp = anchor;

        let action = if flicker {
            EngineAction::Idle
        } else {
            match &current {
                Some(track) => {
                    let immediate_change = match classified {
                        DiffKind::Nothing => false,
                        _ => true,
                    };
                    let due_keepalive = match self.last_sent_at {
                        Some(at) => {
                            let gap: u64 = if now_mono_ms >= at {
                                now_mono_ms - at
                            } else {
                                0
                            };
                            gap >= self.cfg.min_presence_update_ms
                        },
                        None => true,
                    };
                    // Either condition alone makes the payload worth sending, so
                    // the content hash is recorded rather than compared.
                    if immediate_change || (track.is_playing && due_keepalive) {
                        let presence = self.to_presence(track);
                        let hash = hash_presence(&presence);
                        self.last_sent_hash = Some(hash);
                        self.last_sent_at = Some(now_mono_ms);
                        EngineAction::Send(presence)
                    } else {
                        EngineAction::Idle
                    }
                },
                None => {
                    if self.last_track.is_some() {
                        self.last_sent_hash = None;
                        self.last_sent_at = Some(now_mono_ms);
                        EngineAction::Clear
                    } else {
                        EngineAction::Idle
                    }
                },
            }
        };

        if !flicker {
            if let DiffKind::StateChanged = classified {
                self.last_state_flip_at = Some(now_mono_ms);
            }
        }
        self.last_track = current;
        assert(self@ =~= next_model(m, snapshot.track, now_mono_ms, now_wall_ms));
        EngineOutput { action, next_poll_in_ms, diff }
    }

    fn compute_diff(&self, current: &Option<Track>) -> (r: DiffKind)
        ensures
            r == classify(self.last_track, *current),
    {
        match (&self.last_track, current) {
            (None, None) => DiffKind::Nothing,
            (Some(prev), Some(curr)) => {
                if prev.id != curr.id {
                    DiffKind::TrackChanged
                } else if prev.is_playing != curr.is_playing {
                    DiffKind::StateChanged
                } else {
                    DiffKind::Nothing
                }
            },
            _ => DiffKind::TrackChanged,
        }
    }

    fn to_presence(&self, track: &Track) -> (r: PresenceState)
        ensures
            r@ == presence_for(self.cfg, *track, self.stable_start_timestamp),
    {
        let mut details = track.artist.clone();
        details.append(" — ");
        details.append(track.title.as_str());
        let state = if track.is_playing {
            match &track.album {
                Some(a) => {
                    let mut s = String::from_str("on ");
                    s.append(a.as_str());
                    s
                },
                None => String::from_str("Playing"),
            }
        } else {
            String::from_str("Paused")
        };

        let mut buttons: Vec<PresenceButton> = Vec::new();
        if self.cfg.enable_buttons {
            if let Some(url) = &track.links.apple_music {
                buttons.push(
                    PresenceButton {
                        label: String::from_str("Open/Search Apple Music"),
                        url: url.clone(),
                    },
                );
            }
            if let Some(url) = &track.links.spotify_search {
                buttons.push(
                    PresenceButton { label: String::from_str("Search Spotify"), url: url.clone() },
                );
            }
        }
        let small_text = if track.is_playing {
            String::from_str("Playing")
        } else {
            String::from_str("Paused")
        };
        let r = PresenceState {
            activity_type: 2,
            name: String::from_str("Listening"),
            details,
            state,
            start_timestamp: if track.is_playing {
                self.stable_start_timestamp
            } else {
                None
            },
            is_playing: track.is_playing,
            large_image: clone_text(&self.cfg.large_image),
            large_text: clone_text(&self.cfg.large_text),
            small_image: pick_text(
                track.is_playing,
                &self.cfg.small_play_image,
                &self.cfg.small_pause_image,
            ),
            small_text: Some(small_text),
            buttons,
        };
        assert(r@.buttons =~= buttons_for(self.cfg.enable_buttons, track.links));
        assert(r@.details =~= track.artist@ + " — "@ + track.title@);
        r
    }

    fn next_poll(&self, state: PlaybackState) -> (r: u64)
        ensures
            r == poll_delay(self.cfg, state),
    {
        match state {
            PlaybackState::Playing => self.cfg.playing_poll_ms,
            PlaybackState::Paused => self.cfg.paused_poll_ms,
            PlaybackState::Stopped => self.cfg.stopped_poll_ms,
        }
    }
}

// ---------------------------------------------------------------------------
// Laws of the engine.
// ---------------------------------------------------------------------------

/// The inputs of one tick: the current track and the two clock readings.
pub struct TickInput {
    pub track: Option<Track>,
    pub mono_ms: u64,
    pub wall_ms: i64,
}

/// The engine after feeding it `ticks` in order.
pub open spec fn run(m: EngineModel, ticks: Seq<TickInput>) -> EngineModel
    decreases ticks.len(),
{
    if ticks.len() == 0 {
        m
    } else {
        let t = ticks.last();
        next_model(run(m, ticks.drop_last()), t.track, t.mono_ms, t.wall_ms)
    }
}

/// The track that tick `i` of `ticks` is compared against.
pub open spec fn previous_track(m: EngineModel, ticks: Seq<TickInput>, i: int) -> Option<Track> {
    if i == 0 {
        m.last_track
    } else {
        ticks[i - 1].track
    }
}

/// In any sequence of ticks, each tick's diff is the classification of the
/// track before it and its own track; the one exception is a play/pause
/// flicker, whose `StateChanged` is reported as `Nothing`.
pub proof fn lemma_diff_matches_classification(m: EngineModel, ticks: Seq<TickInput>, i: int)
    requires
        0 <= i < ticks.len(),
    ensures
        ({
            let before = run(m, ticks.take(i));
            let c = classify(previous_track(m, ticks, i), ticks[i].track);
            let d = reported_diff(before, ticks[i].track, ticks[i].mono_ms);
            &&& before.last_track == previous_track(m, ticks, i)
            &&& d == c || (c == DiffKind::StateChanged && d == DiffKind::Nothing)
            &&& d != c <==> is_flicker(before, ticks[i].track, ticks[i].mono_ms)
        }),
{
    if i > 0 {
        let pre = ticks.take(i);
        assert(pre.drop_last() =~= ticks.take(i - 1));
        assert(pre.last() == ticks[i - 1]);
    }
}

/// A play/pause flip of the sent track that follows within the debounce
/// window is absorbed: two sends never come in a row for it.
pub proof fn lemma_flicker_absorbed(
    m: EngineModel,
    a: Track,
    b: Track,
    t1: u64,
    t2: u64,
    w1: i64,
    w2: i64,
)
    requires
        a.id@ == b.id@,
        a.is_playing != b.is_playing,
        t1 <= t2,
        t2 - t1 < m.cfg.debounce_ms,
    ensures
        action_for(m, Some(a), t1, w1) is Send ==> {
            let m1 = next_model(m, Some(a), t1, w1);
            &&& action_for(m1, Some(b), t2, w2) is Idle
            &&& reported_diff(m1, Some(b), t2) == DiffKind::Nothing
        },
{
}

/// A start timestamp is only held while the last track plays.
pub open spec fn anchor_consistent(m: EngineModel) -> bool {
    m.stable_start is Some ==> (m.last_track matches Some(p) && p.is_playing)
}

/// Every tick keeps the start timestamp tied to a playing track; a fresh
/// engine holds none.
pub proof fn lemma_anchor_consistent(m: EngineModel, curr: Option<Track>, now: u64, wall_ms: i64)
    requires
        anchor_consistent(m),
    ensures
        anchor_consistent(next_model(m, curr, now, wall_ms)),
{
}

/// Once a track plays, the start timestamp stays what the first playing tick
/// set for as long as the same track keeps playing, whatever position later
/// polls report.
pub proof fn lemma_anchor_stable(m: EngineModel, first: TickInput, later: Seq<TickInput>, i: int)
    requires
        first.track matches Some(a) && a.is_playing,
        first.wall_ms >= 0,
        forall|k: int|
            0 <= k < later.len() ==> (#[trigger] later[k].track matches Some(b) && b.is_playing
                && b.id@ == first.track->0.id@),
        0 <= i <= later.len(),
    ensures
        ({
            let m1 = next_model(m, first.track, first.mono_ms, first.wall_ms);
            &&& m1.stable_start is Some
            &&& anchor_consistent(m) && !(m.last_track matches Some(p) && p.id@
                == first.track->0.id@ && p.is_playing) ==> m1.stable_start == Some(
                (first.wall_ms as int / 1000 - position_secs(first.track->0)) as i64,
            )
            &&& run(m1, later.take(i)).stable_start == m1.stable_start
            &&& i < later.len() ==> (action_for(
                run(m1, later.take(i)),
                later[i].track,
                later[i].mono_ms,
                later[i].wall_ms,
            ) matches ActionView::Send(p) ==> p.start_timestamp == m1.stable_start)
        }),
    decreases i,
{
    let m1 = next_model(m, first.track, first.mono_ms, first.wall_ms);
    if i == 0 {
        assert(later.take(0) =~= Seq::<TickInput>::empty());
    } else {
        lemma_anchor_stable(m, first, later, i - 1);
        let pre = later.take(i);
        assert(pre.drop_last() =~= later.take(i - 1));
        assert(pre.last() == later[i - 1]);
        if i >= 2 {
            assert(later.take(i - 1).last() == later[i - 2]);
        }
        let before = run(m1, later.take(i - 1));
        assert(before.last_track == if i == 1 {
            first.track
        } else {
            later[i - 2].track
        });
    }
}

/// Losing the track clears the presence once; further trackless ticks do
/// nothing until a track comes back.
pub proof fn lemma_clear_once(m: EngineModel, gone: TickInput, after: Seq<TickInput>, i: int)
    requires
        m.last_track is Some,
        gone.track is None,
        forall|k: int| 0 <= k < after.len() ==> (#[trigger] after[k].track) is None,
        0 <= i < after.len(),
    ensures
        action_for(m, gone.track, gone.mono_ms, gone.wall_ms) is Clear,
        reported_diff(m, gone.track, gone.mono_ms) == DiffKind::TrackChanged,
        ({
            let m1 = next_model(m, gone.track, gone.mono_ms, gone.wall_ms);
            let before = run(m1, after.take(i));
            &&& action_for(before, after[i].track, after[i].mono_ms, after[i].wall_ms) is Idle
            &&& reported_diff(before, after[i].track, after[i].mono_ms) == DiffKind::Nothing
        }),
{
    let m1 = next_model(m, gone.track, gone.mono_ms, gone.wall_ms);
    if i > 0 {
        let pre = after.take(i);
        assert(pre.drop_last() =~= after.take(i - 1));
        assert(pre.last() == after[i - 1]);
    }
}

/// While the same track keeps playing, a tick re-sends exactly when the
/// minimum update interval has passed since the last send.
pub proof fn lemma_keepalive(m: EngineModel, t: Track, now: u64, wall_ms: i64)
    requires
        m.last_track matches Some(p) && p.id@ == t.id@ && p.is_playing,
        t.is_playing,
    ensures
        m.last_sent_at matches Some(at) ==> (at <= now ==> (action_for(m, Some(t), now, wall_ms) is Send
            <==> now - at >= m.cfg.min_presence_update_ms)),
        m.last_sent_at is None ==> action_for(m, Some(t), now, wall_ms) is Send,
{
}

} // verus!
