//! Snapshots of "now playing" sources and the choice among them.

use crate::model::{PlaybackState, SourceApp, Track};
use vstd::prelude::*;

verus! {

/// The result of one poll of one source.
///
/// A well-formed snapshot carries a track exactly when its state is not
/// `Stopped`.
#[derive(Debug, Clone)]
pub struct ProviderSnapshot {
    pub provider_name: &'static str,
    pub state: PlaybackState,
    pub track: Option<Track>,
    pub raw_state: Option<String>,
    pub last_error: Option<String>,
}

impl ProviderSnapshot {
    /// A snapshot carries a track exactly when something is loaded.
    pub open spec fn well_formed(&self) -> bool {
        (self.state == PlaybackState::Stopped) == (self.track is None)
    }

    /// Nothing is playing on `provider_name`.
    pub fn stopped(provider_name: &'static str) -> (r: Self)
        ensures
            r.provider_name == provider_name,
            r.state == PlaybackState::Stopped,
            r.track is None,
            r.raw_state matches Some(s) && s@ == "stopped"@,
            r.last_error is None,
            r.well_formed(),
    {
        ProviderSnapshot {
            provider_name,
            state: PlaybackState::Stopped,
            track: None,
            raw_state: Some(String::from_str("stopped")),
            last_error: None,
        }
    }

    /// `provider_name` could not be read; `err` says why.
    pub fn with_error(provider_name: &'static str, err: String) -> (r: Self)
        ensures
            r.provider_name == provider_name,
            r.state == PlaybackState::Stopped,
            r.track is None,
            r.raw_state matches Some(s) && s@ == "error"@,
            r.last_error matches Some(e) && e@ == err@,
            r.well_formed(),
    {
        ProviderSnapshot {
            provider_name,
            state: PlaybackState::Stopped,
            track: None,
            raw_state: Some(String::from_str("error")),
            last_error: Some(err),
        }
    }
}

/// `s` reports something: a state other than `Stopped`, or a track.
pub open spec fn is_meaningful(s: ProviderSnapshot) -> bool {
    s.state != PlaybackState::Stopped || s.track is Some
}

/// `s` is the snapshot of a source that could not be read, with message `err`.
pub open spec fn is_error_snapshot(s: ProviderSnapshot, name: &'static str, err: Seq<char>) -> bool {
    &&& s.provider_name == name
    &&& s.state == PlaybackState::Stopped
    &&& s.track is None
    &&& s.raw_state matches Some(r) && r@ == "error"@
    &&& s.last_error matches Some(e) && e@ == err
}

/// `s` is the snapshot of a source on which nothing plays.
pub open spec fn is_stopped_snapshot(s: ProviderSnapshot, name: &'static str) -> bool {
    &&& s.provider_name == name
    &&& s.state == PlaybackState::Stopped
    &&& s.track is None
    &&& s.raw_state matches Some(r) && r@ == "stopped"@
    &&& s.last_error is None
}

/// One round of polling over the chain, in priority order.
///
/// Each source's outcome is offered in turn; the first that reports
/// something is the answer. Otherwise the first outcome seen, a failure
/// turned into a stopped snapshot included, is kept as the fallback.
pub struct ChainPoll {
    fallback: Option<ProviderSnapshot>,
}

impl View for ChainPoll {
    type V = Option<ProviderSnapshot>;

    closed spec fn view(&self) -> Option<ProviderSnapshot> {
        self.fallback
    }
}

impl ChainPoll {
    /// A round in which no source has answered yet.
    pub fn new() -> (r: Self)
        ensures
            r@ is None,
    {
        ChainPoll { fallback: None }
    }

    /// Takes the outcome of polling `provider_name`. Returns the snapshot when
    /// it reports something, which ends the round; otherwise remembers the
    /// first outcome of the round as the fallback and returns `None`.
    pub fn offer(&mut self, provider_name: &'static str, outcome: Result<ProviderSnapshot, String>) -> (r:
        Option<ProviderSnapshot>)
        ensures
            match outcome {
                Ok(s) => if is_meaningful(s) {
                    r == Some(s) && final(self)@ == old(self)@
                } else {
                    &&& r is None
                    &&& old(self)@ is None ==> final(self)@ == Some(s)
                    &&& old(self)@ is Some ==> final(self)@ == old(self)@
                },
                Err(e) => {
                    &&& r is None
                    &&& old(self)@ is None ==> (final(self)@ matches Some(f) && is_error_snapshot(
                        f,
                        provider_name,
                        e@,
                    ))
                    &&& old(self)@ is Some ==> final(self)@ == old(self)@
                },
            },
    {
        match outcome {
            Ok(snapshot) => {
                if snapshot.state != PlaybackState::Stopped || snapshot.track.is_some() {
                    return Some(snapshot);
                }
                if self.fallback.is_none() {
                    self.fallback = Some(snapshot);
                }
                None
            },
            Err(err) => {
                if self.fallback.is_none() {
                    self.fallback = Some(ProviderSnapshot::with_error(provider_name, err));
                }
                None
            },
        }
    }

    /// The answer of a round in which no source reported anything: the
    /// fallback, or a stopped snapshot named "none" when no source was polled.
    pub fn finish(self) -> (r: ProviderSnapshot)
        ensures
            self@ matches Some(f) ==> r == f,
            self@ is None ==> is_stopped_snapshot(r, "none"),
    {
        match self.fallback {
            Some(f) => f,
            None => ProviderSnapshot::stopped("none"),
        }
    }
}

/// The operating system the bridge runs on; it decides which sources exist.
#[derive(Debug, Clone, Copy, PartialEq, Eq, Structural)]
pub enum Platform {
    Linux,
    MacOs,
    Windows,
    Other,
}

/// The kinds of source the bridge can poll.
#[derive(Debug, Clone, Copy, PartialEq, Eq, Structural)]
pub enum ProviderKind {
    AppleMusic,
    Windows,
    Mpris,
    Null,
}

impl ProviderKind {
    pub open spec fn spec_name(self) -> Seq<char> {
        match self {
            ProviderKind::AppleMusic => "apple_music"@,
            ProviderKind::Windows => "windows"@,
            ProviderKind::Mpris => "mpris"@,
            ProviderKind::Null => "null"@,
        }
    }

    pub open spec fn spec_source(self) -> SourceApp {
        match self {
            ProviderKind::AppleMusic => SourceApp::AppleMusicMac,
            ProviderKind::Windows => SourceApp::WindowsMediaSession,
            ProviderKind::Mpris => SourceApp::Mpris,
            ProviderKind::Null => SourceApp::Unknown,
        }
    }

    /// The name under which the configuration lists this source.
    pub fn name(&self) -> (r: &'static str)
        ensures
            r@ == self.spec_name(),
    {
        match self {
            ProviderKind::AppleMusic => "apple_music",
            ProviderKind::Windows => "windows",
            ProviderKind::Mpris => "mpris",
            ProviderKind::Null => "null",
        }
    }

    /// The origin tag of tracks this source reports.
    pub fn source(&self) -> (r: SourceApp)
        ensures
            r == self.spec_source(),
    {
        match self {
            ProviderKind::AppleMusic => SourceApp::AppleMusicMac,
            ProviderKind::Windows => SourceApp::WindowsMediaSession,
            ProviderKind::Mpris => SourceApp::Mpris,
            ProviderKind::Null => SourceApp::Unknown,
        }
    }
}

/// What every "now playing" source tells about itself. Polling it is I/O
/// and lives with the program that drives the bridge.
pub trait NowPlayingProvider {
    /// The kind of source this is.
    spec fn kind(&self) -> ProviderKind;

    fn name(&self) -> (r: &'static str)
        ensures
            r@ == self.kind().spec_name(),
    ;

    fn source(&self) -> (r: SourceApp)
        ensures
            r == self.kind().spec_source(),
    ;
}

/// The music app on macOS, read through a scripting bridge.
pub struct AppleMusicProvider;

impl AppleMusicProvider {
    pub fn new() -> Self {
        AppleMusicProvider
    }
}

impl NowPlayingProvider for AppleMusicProvider {
    open spec fn kind(&self) -> ProviderKind {
        ProviderKind::AppleMusic
    }

    fn name(&self) -> &'static str {
        ProviderKind::AppleMusic.name()
    }

    fn source(&self) -> SourceApp {
        ProviderKind::AppleMusic.source()
    }
}

/// Media players on the Linux session bus.
pub struct MprisProvider;

impl MprisProvider {
    pub fn new() -> Self {
        MprisProvider
    }
}

impl NowPlayingProvider for MprisProvider {
    open spec fn kind(&self) -> ProviderKind {
        ProviderKind::Mpris
    }

    fn name(&self) -> &'static str {
        ProviderKind::Mpris.name()
    }

    fn source(&self) -> SourceApp {
        ProviderKind::Mpris.source()
    }
}

/// The Windows media session manager.
pub struct WindowsGsmtcProvider;

impl WindowsGsmtcProvider {
    pub fn new() -> Self {
        WindowsGsmtcProvider
    }
}

impl NowPlayingProvider for WindowsGsmtcProvider {
    open spec fn kind(&self) -> ProviderKind {
        ProviderKind::Windows
    }

    fn name(&self) -> &'static str {
        ProviderKind::Windows.name()
    }

    fn source(&self) -> SourceApp {
        ProviderKind::Windows.source()
    }
}

/// The source that never plays anything; it keeps an empty chain idle.
pub struct NullProvider;

impl NullProvider {
    /// What the null source reports on every poll.
    pub fn snapshot(&self) -> (r: ProviderSnapshot)
        ensures
            is_stopped_snapshot(r, "null"),
    {
        ProviderSnapshot::stopped("null")
    }
}

impl NowPlayingProvider for NullProvider {
    open spec fn kind(&self) -> ProviderKind {
        ProviderKind::Null
    }

    fn name(&self) -> &'static str {
        ProviderKind::Null.name()
    }

    fn source(&self) -> SourceApp {
        ProviderKind::Null.source()
    }
}

/// The music-app source, where the platform has it.
pub fn apple_music_provider(platform: Platform) -> (r: Option<ProviderKind>)
    ensures
        r == (if platform == Platform::MacOs {
            Some(ProviderKind::AppleMusic)
        } else {
            None
        }),
{
    match platform {
        Platform::MacOs => Some(ProviderKind::AppleMusic),
        _ => None,
    }
}

/// The media-session source, where the platform has it.
pub fn windows_provider(platform: Platform) -> (r: Option<ProviderKind>)
    ensures
        r == (if platform == Platform::Windows {
            Some(ProviderKind::Windows)
        } else {
            None
        }),
{
    match platform {
        Platform::Windows => Some(ProviderKind::Windows),
        _ => None,
    }
}

/// The session-bus source, where the platform has it.
pub fn mpris_provider(platform: Platform) -> (r: Option<ProviderKind>)
    ensures
        r == (if platform == Platform::Linux {
            Some(ProviderKind::Mpris)
        } else {
            None
        }),
{
    match platform {
        Platform::Linux => Some(ProviderKind::Mpris),
        _ => None,
    }
}

/// The source a configured name stands for on `platform`, if any.
pub open spec fn kind_for(name: Seq<char>, platform: Platform) -> Option<ProviderKind> {
    if name == "apple_music"@ {
        if platform == Platform::MacOs {
            Some(ProviderKind::AppleMusic)
        } else {
            None
        }
    } else if name == "windows"@ {
        if platform == Platform::Windows {
            Some(ProviderKind::Windows)
        } else {
            None
        }
    } else if name == "mpris"@ {
        if platform == Platform::Linux {
            Some(ProviderKind::Mpris)
        } else {
            None
        }
    } else {
        None
    }
}

/// The available sources named in `names`, in order.
pub open spec fn available(names: Seq<Seq<char>>, platform: Platform) -> Seq<ProviderKind>
    decreases names.len(),
{
    if names.len() == 0 {
        Seq::empty()
    } else {
        let rest = available(names.drop_last(), platform);
        match kind_for(names.last(), platform) {
            Some(k) => rest.push(k),
            None => rest,
        }
    }
}

/// The sources of a chain built from `names`: the available ones, or the
/// null source alone when none is.
pub open spec fn planned_chain(names: Seq<Seq<char>>, platform: Platform) -> Seq<ProviderKind> {
    let found = available(names, platform);
    if found.len() == 0 {
        seq![ProviderKind::Null]
    } else {
        found
    }
}

/// The ordered sources asked for a snapshot on each tick.
pub struct ProviderChain {
    providers: Vec<ProviderKind>,
}

impl View for ProviderChain {
    type V = Seq<ProviderKind>;

    closed spec fn view(&self) -> Seq<ProviderKind> {
        self.providers@
    }
}

impl ProviderChain {
    pub fn new(providers: Vec<ProviderKind>) -> (r: Self)
        ensures
            r@ == providers@,
    {
        ProviderChain { providers }
    }

    /// The sources in priority order.
    pub fn providers(&self) -> (r: &Vec<ProviderKind>)
        ensures
            r@ == self@,
    {
        &self.providers
    }

    /// The names of the sources, in priority order.
    pub fn provider_names(&self) -> (r: Vec<&'static str>)
        ensures
            r@.len() == self@.len(),
            forall|i: int| 0 <= i < r@.len() ==> (#[trigger] r@[i])@ == self@[i].spec_name(),
    {
        let mut names: Vec<&'static str> = Vec::new();
        let mut i: usize = 0;
        while i < self.providers.len()
            invariant
                i <= self.providers@.len(),
                names@.len() == i,
                forall|j: int| 0 <= j < i ==> (#[trigger] names@[j])@ == self.providers@[j].spec_name(),
            decreases self.providers@.len() - i,
        {
            names.push(self.providers[i].name());
            i = i + 1;
        }
        names
    }
}

/// Whether `a` holds the characters of `lit`.
fn text_is(a: &String, lit: &str) -> (r: bool)
    ensures
        r == (a@ == lit@),
{
    *a == String::from_str(lit)
}

/// The source that `name` stands for on `platform`, if it is available there.
fn provider_for(name: &String, platform: Platform) -> (r: Option<ProviderKind>)
    ensures
        r == kind_for(name@, platform),
{
    if text_is(name, "apple_music") {
        apple_music_provider(platform)
    } else if text_is(name, "windows") {
        windows_provider(platform)
    } else if text_is(name, "mpris") {
        mpris_provider(platform)
    } else {
        None
    }
}

/// Builds the chain from the configured priority names, skipping names with
/// no source on `platform` and falling back to the null source.
pub fn build_provider_chain(priority: &Vec<String>, platform: Platform) -> (r: ProviderChain)
    ensures
        r@ == planned_chain(priority@.map_values(|s: String| s@), platform),
{
    let ghost names = priority@.map_values(|s: String| s@);
    let mut providers: Vec<ProviderKind> = Vec::new();
    let mut i: usize = 0;
    while i < priority.len()
        invariant
            i <= priority@.len(),
            names == priority@.map_values(|s: String| s@),
            providers@ == available(names.subrange(0, i as int), platform),
        decreases priority@.len() - i,
    {
        let found = provider_for(&priority[i], platform);
        proof {
            let pre = names.subrange(0, i + 1);
            assert(pre.drop_last() =~= names.subrange(0, i as int));
            assert(pre.last() == priority@[i as int]@);
        }
        if let Some(p) = found {
            providers.push(p);
        }
        i = i + 1;
    }
    assert(names.subrange(0, names.len() as int) =~= names);
    if providers.len() == 0 {
        providers.push(ProviderKind::Null);
        assert(providers@ =~= seq![ProviderKind::Null]);
    }
    ProviderChain::new(providers)
}

} // verus!
