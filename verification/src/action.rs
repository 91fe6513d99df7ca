use vstd::prelude::*;
use crate::model::{Device, PlaybackContext, Playlist, SavedTrack, Track};

verus! {

/// A key press, reduced to the keys the application reacts to.
#[derive(Clone, Copy, Debug, PartialEq, Eq, Structural)]
pub enum Key {
    Char(char),
    Enter,
    Backspace,
    Esc,
    Tab,
    BackTab,
    Up,
    Down,
}

/// Events sent from the event source to the main loop.
#[derive(Debug)]
pub enum Event {
    Key(Key),
    Tick,
    Resize(u16, u16),
}

/// IO requests emitted by the application state machine for the IO worker.
#[derive(Clone, Debug)]
pub enum IoEvent {
    FetchNowPlaying,
    PlayPause,
    NextTrack,
    PreviousTrack,
    VolumeUp,
    VolumeDown,
    FetchPlaylists,
    FetchPlaylistTracks(String),
    PlayTrackInContext { context_uri: String, offset: usize },
    PlayTrack(String),
    Search(String),
    FetchLikedSongs,
    ToggleLike { track_id: String, currently_liked: bool },
    FetchDevices,
}

/// State updates folded into the application state, one per resolved request.
#[derive(Debug)]
pub enum Action {
    NowPlayingUpdated(Option<PlaybackContext>),
    PlaylistsLoaded(Vec<Playlist>),
    PlaylistTracksLoaded(Vec<Track>),
    SearchResultsLoaded { tracks: Vec<Track> },
    LikedSongsLoaded(Vec<SavedTrack>),
    LikeToggled { track_id: String, is_liked: bool },
    Error(String),
    DevicesLoaded(Vec<Device>),
}

} // verus!
