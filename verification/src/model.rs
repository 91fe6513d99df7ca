use vstd::prelude::*;

verus! {

/// One track of the catalog: its identifier (absent for local files),
/// display name, artist names in listing order, and duration in milliseconds.
#[derive(Clone, Debug)]
pub struct Track {
    pub id: Option<String>,
    pub name: String,
    pub artists: Vec<String>,
    pub duration_ms: u64,
}

/// One entry of the user's saved ("liked") tracks.
#[derive(Clone, Debug)]
pub struct SavedTrack {
    pub track: Track,
}

/// One playlist of the user's library.
#[derive(Clone, Debug)]
pub struct Playlist {
    pub id: String,
    pub name: String,
}

/// One known playback device, with its last reported volume (0-100) if any.
#[derive(Clone, Debug)]
pub struct Device {
    pub id: Option<String>,
    pub name: String,
    pub volume_percent: Option<u8>,
}

/// A podcast episode, as far as playback display needs it.
#[derive(Clone, Debug)]
pub struct Episode {
    pub name: String,
    pub duration_ms: u64,
}

/// What is currently playing: a track or an episode.
#[derive(Clone, Debug)]
pub enum PlayableItem {
    Track(Track),
    Episode(Episode),
}

impl PlayableItem {
    /// Duration of the item in milliseconds.
    pub open spec fn spec_duration_ms(self) -> u64 {
        match self {
            PlayableItem::Track(t) => t.duration_ms,
            PlayableItem::Episode(e) => e.duration_ms,
        }
    }

    /// Returns the duration of the item in milliseconds.
    pub fn duration_ms(&self) -> (r: u64)
        ensures
            r == self.spec_duration_ms(),
    {
        match self {
            PlayableItem::Track(t) => t.duration_ms,
            PlayableItem::Episode(e) => e.duration_ms,
        }
    }
}

/// A point-in-time report of the remote playback state: whether it plays,
/// on which device, what item, and how far into it (milliseconds).
#[derive(Clone, Debug)]
pub struct PlaybackContext {
    pub is_playing: bool,
    pub device: Device,
    pub item: Option<PlayableItem>,
    pub progress_ms: Option<u64>,
}

} // verus!
