//! The normalized "now playing" data shared by every source.

use vstd::prelude::*;

verus! {

/// Where a track was read from.
#[derive(Debug, Clone, Copy, PartialEq, Eq, Structural)]
pub enum SourceApp {
    AppleMusicMac,
    WindowsMediaSession,
    Mpris,
    Unknown,
}

/// Playback state reported by a source.
#[derive(Debug, Clone, Copy, PartialEq, Eq, Structural)]
pub enum PlaybackState {
    Playing,
    Paused,
    Stopped,
}

/// Optional outbound search links for a track.
#[derive(Debug, Clone)]
pub struct TrackLinks {
    pub apple_music: Option<String>,
    pub spotify_search: Option<String>,
}

/// One piece of media as a source reports it.
///
/// `id` identifies the loaded media across polls that differ only in
/// position or playing flag. `updated_at_ms` is the wall-clock capture time
/// in milliseconds relative to the Unix epoch.
#[derive(Debug, Clone)]
pub struct Track {
    pub id: String,
    pub title: String,
    pub artist: String,
    pub album: Option<String>,
    pub duration_ms: Option<u64>,
    pub position_ms: Option<u64>,
    pub is_playing: bool,
    pub source: SourceApp,
    pub links: TrackLinks,
    pub updated_at_ms: i64,
}

/// The characters of an optional string.
pub open spec fn opt_chars(o: Option<String>) -> Option<Seq<char>> {
    match o {
        Some(s) => Some(s@),
        None => None,
    }
}

/// A copy of an optional string.
pub fn clone_text(o: &Option<String>) -> (r: Option<String>)
    ensures
        r == *o,
{
    match o {
        Some(s) => Some(s.clone()),
        None => None,
    }
}

} // verus!
