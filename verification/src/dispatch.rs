use vstd::prelude::*;
use vstd::string::StringExecFns;
use crate::action::{Action, IoEvent};
use crate::model::{Device, PlaybackContext, Playlist, SavedTrack, Track};

verus! {

/// The operation whose remote call failed, naming the message prefix the
/// user sees.
#[derive(Clone, Copy, Debug, PartialEq, Eq, Structural)]
pub enum FailedOp {
    FetchPlayback,
    PlaybackControl,
    NextTrack,
    PreviousTrack,
    VolumeChange,
    PlayTrack,
    Search,
    FetchPlaylists,
    FetchTracks,
    FetchLikedSongs,
    Unlike,
    Like,
    FetchDevices,
}

impl FailedOp {
    /// The user-facing prefix for this failing operation.
    pub open spec fn spec_prefix(self) -> Seq<char> {
        match self {
            FailedOp::FetchPlayback => "Failed to fetch playback: "@,
            FailedOp::PlaybackControl => "Playback control failed: "@,
            FailedOp::NextTrack => "Next track failed: "@,
            FailedOp::PreviousTrack => "Previous track failed: "@,
            FailedOp::VolumeChange => "Volume change failed: "@,
            FailedOp::PlayTrack => "Failed to play track: "@,
            FailedOp::Search => "Search failed: "@,
            FailedOp::FetchPlaylists => "Failed to fetch playlists: "@,
            FailedOp::FetchTracks => "Failed to fetch tracks: "@,
            FailedOp::FetchLikedSongs => "Failed to fetch liked songs: "@,
            FailedOp::Unlike => "Failed to unlike: "@,
            FailedOp::Like => "Failed to like: "@,
            FailedOp::FetchDevices => "Failed to fetch devices: "@,
        }
    }
}

/// The error update for a failed operation: its prefix followed by the
/// failure's own description.
pub fn failure_action(op: FailedOp, detail: String) -> (r: Action)
    ensures
        r matches Action::Error(m) && m@ == op.spec_prefix() + detail@,
{
    let prefix = match op {
        FailedOp::FetchPlayback => "Failed to fetch playback: ",
        FailedOp::PlaybackControl => "Playback control failed: ",
        FailedOp::NextTrack => "Next track failed: ",
        FailedOp::PreviousTrack => "Previous track failed: ",
        FailedOp::VolumeChange => "Volume change failed: ",
        FailedOp::PlayTrack => "Failed to play track: ",
        FailedOp::Search => "Search failed: ",
        FailedOp::FetchPlaylists => "Failed to fetch playlists: ",
        FailedOp::FetchTracks => "Failed to fetch tracks: ",
        FailedOp::FetchLikedSongs => "Failed to fetch liked songs: ",
        FailedOp::Unlike => "Failed to unlike: ",
        FailedOp::Like => "Failed to like: ",
        FailedOp::FetchDevices => "Failed to fetch devices: ",
    };
    Action::Error(String::from_str(prefix).concat(detail.as_str()))
}

/// The state update for a resolved "fetch now playing" request: the snapshot
/// on success, a prefixed error otherwise.
pub fn fetch_now_playing_outcome(result: Result<Option<PlaybackContext>, String>) -> (r: Action)
    ensures
        match result {
            Ok(ctx) => r == Action::NowPlayingUpdated(ctx),
            Err(e) => r matches Action::Error(m) && m@ == FailedOp::FetchPlayback.spec_prefix()
                + e@,
        },
{
    match result {
        Ok(ctx) => Action::NowPlayingUpdated(ctx),
        Err(e) => failure_action(FailedOp::FetchPlayback, e),
    }
}

/// The state update for the re-fetch that follows a volume change or a play
/// request: the snapshot on success, the failure's bare description
/// otherwise.
pub fn refetch_now_playing_outcome(result: Result<Option<PlaybackContext>, String>) -> (r: Action)
    ensures
        match result {
            Ok(ctx) => r == Action::NowPlayingUpdated(ctx),
            Err(e) => r == Action::Error(e),
        },
{
    match result {
        Ok(ctx) => Action::NowPlayingUpdated(ctx),
        Err(e) => Action::Error(e),
    }
}

/// The decision after fetching playback state for a play/pause toggle:
/// whether playback is currently running (so the worker knows which call to
/// make), or the error update that ends the request.
pub fn play_pause_step(fetch: Result<Option<PlaybackContext>, String>) -> (r: Result<bool, Action>)
    ensures
        match fetch {
            Ok(ctx_opt) => match ctx_opt {
                Some(ctx) => r == Result::<bool, Action>::Ok(ctx.is_playing),
                None => r matches Err(a) && a matches Action::Error(m) && m@
                    == "No active device found"@,
            },
            Err(e) => r matches Err(a) && a matches Action::Error(m) && m@
                == FailedOp::FetchPlayback.spec_prefix() + e@,
        },
{
    match fetch {
        Ok(Some(ctx)) => Ok(ctx.is_playing),
        Ok(None) => Err(Action::Error(String::from_str("No active device found"))),
        Err(e) => Err(failure_action(FailedOp::FetchPlayback, e)),
    }
}

/// The volume a "volume up" press asks for: five points more, clamped to 100.
pub fn volume_up_target(current: u8) -> (r: u8)
    requires
        current <= 100,
    ensures
        r == if current + 5 <= 100 {
            current + 5
        } else {
            100
        },
        r <= 100,
{
    if current + 5 <= 100 {
        current + 5
    } else {
        100
    }
}

/// The volume a "volume down" press asks for: five points less, stopping
/// at zero.
pub fn volume_down_target(current: u8) -> (r: u8)
    ensures
        r == if current >= 5 {
            (current - 5) as u8
        } else {
            0
        },
{
    if current >= 5 {
        current - 5
    } else {
        0
    }
}

/// The decision after fetching playback state for a volume change: the
/// clamped volume to request, or the error update that ends the request.
pub fn volume_step(fetch: Result<Option<PlaybackContext>, String>, up: bool) -> (r: Result<
    u8,
    Action,
>)
    requires
        match fetch {
            Ok(Some(ctx)) => match ctx.device.volume_percent {
                Some(v) => v <= 100,
                None => true,
            },
            _ => true,
        },
    ensures
        match fetch {
            Ok(ctx_opt) => match ctx_opt {
                Some(ctx) => {
                    let current: int = match ctx.device.volume_percent {
                        Some(v) => v as int,
                        None => 50,
                    };
                    r == Result::<u8, Action>::Ok(
                        (if up {
                            if current + 5 <= 100 {
                                current + 5
                            } else {
                                100
                            }
                        } else {
                            if current >= 5 {
                                current - 5
                            } else {
                                0
                            }
                        }) as u8,
                    )
                },
                None => r matches Err(a) && a matches Action::Error(m) && m@
                    == "No active device"@,
            },
            Err(e) => r matches Err(a) && a == Action::Error(e),
        },
{
    match fetch {
        Ok(Some(ctx)) => {
            let current: u8 = match ctx.device.volume_percent {
                Some(v) => v,
                None => 50,
            };
            if up {
                Ok(volume_up_target(current))
            } else {
                Ok(volume_down_target(current))
            }
        }
        Ok(None) => Err(Action::Error(String::from_str("No active device"))),
        Err(e) => Err(Action::Error(e)),
    }
}

/// The state update for a resolved playlists fetch.
pub fn playlists_outcome(result: Result<Vec<Playlist>, String>) -> (r: Action)
    ensures
        match result {
            Ok(playlists) => r == Action::PlaylistsLoaded(playlists),
            Err(e) => r matches Action::Error(m) && m@ == FailedOp::FetchPlaylists.spec_prefix()
                + e@,
        },
{
    match result {
        Ok(playlists) => Action::PlaylistsLoaded(playlists),
        Err(e) => failure_action(FailedOp::FetchPlaylists, e),
    }
}

/// The state update for a resolved playlist-tracks fetch.
pub fn playlist_tracks_outcome(result: Result<Vec<Track>, String>) -> (r: Action)
    ensures
        match result {
            Ok(tracks) => r == Action::PlaylistTracksLoaded(tracks),
            Err(e) => r matches Action::Error(m) && m@ == FailedOp::FetchTracks.spec_prefix() + e@,
        },
{
    match result {
        Ok(tracks) => Action::PlaylistTracksLoaded(tracks),
        Err(e) => failure_action(FailedOp::FetchTracks, e),
    }
}

/// The state update for a resolved track search.
pub fn search_outcome(result: Result<Vec<Track>, String>) -> (r: Action)
    ensures
        match result {
            Ok(tracks) => r == (Action::SearchResultsLoaded { tracks }),
            Err(e) => r matches Action::Error(m) && m@ == FailedOp::Search.spec_prefix() + e@,
        },
{
    match result {
        Ok(tracks) => Action::SearchResultsLoaded { tracks },
        Err(e) => failure_action(FailedOp::Search, e),
    }
}

/// The state update for a resolved liked-songs fetch.
pub fn liked_songs_outcome(result: Result<Vec<SavedTrack>, String>) -> (r: Action)
    ensures
        match result {
            Ok(songs) => r == Action::LikedSongsLoaded(songs),
            Err(e) => r matches Action::Error(m) && m@ == FailedOp::FetchLikedSongs.spec_prefix()
                + e@,
        },
{
    match result {
        Ok(songs) => Action::LikedSongsLoaded(songs),
        Err(e) => failure_action(FailedOp::FetchLikedSongs, e),
    }
}

/// The state update for a resolved devices fetch.
pub fn devices_outcome(result: Result<Vec<Device>, String>) -> (r: Action)
    ensures
        match result {
            Ok(devices) => r == Action::DevicesLoaded(devices),
            Err(e) => r matches Action::Error(m) && m@ == FailedOp::FetchDevices.spec_prefix()
                + e@,
        },
{
    match result {
        Ok(devices) => Action::DevicesLoaded(devices),
        Err(e) => failure_action(FailedOp::FetchDevices, e),
    }
}

/// The state update for a resolved like toggle: on success the track's new
/// liked status is the opposite of what it was; on failure the message names
/// the direction that failed.
pub fn toggle_like_outcome(track_id: String, currently_liked: bool, result: Result<(), String>) -> (r:
    Action)
    ensures
        match result {
            Ok(_) => r == (Action::LikeToggled { track_id, is_liked: !currently_liked }),
            Err(e) => r matches Action::Error(m) && m@ == if currently_liked {
                FailedOp::Unlike.spec_prefix() + e@
            } else {
                FailedOp::Like.spec_prefix() + e@
            },
        },
{
    match result {
        Ok(_) => Action::LikeToggled { track_id, is_liked: !currently_liked },
        Err(e) => {
            if currently_liked {
                failure_action(FailedOp::Unlike, e)
            } else {
                failure_action(FailedOp::Like, e)
            }
        }
    }
}

/// How long the worker lets the remote service settle after a transport
/// call before re-fetching the playback state, in milliseconds; zero for
/// requests that are not followed by a re-fetch.
pub fn settle_delay_ms(event: &IoEvent) -> (r: u64)
    ensures
        r == match event {
            IoEvent::PlayPause => 200u64,
            IoEvent::VolumeUp => 200u64,
            IoEvent::VolumeDown => 200u64,
            IoEvent::NextTrack => 300u64,
            IoEvent::PreviousTrack => 300u64,
            IoEvent::PlayTrackInContext { .. } => 300u64,
            IoEvent::PlayTrack(_) => 300u64,
            _ => 0u64,
        },
{
    match event {
        IoEvent::PlayPause => 200,
        IoEvent::VolumeUp => 200,
        IoEvent::VolumeDown => 200,
        IoEvent::NextTrack => 300,
        IoEvent::PreviousTrack => 300,
        IoEvent::PlayTrackInContext { .. } => 300,
        IoEvent::PlayTrack(_) => 300,
        _ => 0,
    }
}

/// The playable tracks among one page's items, in page order: podcast
/// episodes and missing items arrive as None and are skipped.
pub open spec fn kept_tracks(items: Seq<Option<Track>>) -> Seq<Track>
    decreases items.len(),
{
    if items.len() == 0 {
        Seq::empty()
    } else {
        let rest = kept_tracks(items.drop_last());
        match items.last() {
            Some(t) => rest.push(t),
            None => rest,
        }
    }
}

/// Keeps the tracks of one page, in order, skipping what is not a track.
pub fn collect_present_tracks(items: Vec<Option<Track>>) -> (r: Vec<Track>)
    ensures
        r@ == kept_tracks(items@),
{
    let ghost orig = items@;
    let mut rem = items;
    let mut r: Vec<Track> = Vec::new();
    let ghost mut k: int = 0;
    while rem.len() > 0
        invariant
            0 <= k,
            k + rem@.len() == orig.len(),
            rem@ == orig.subrange(k, orig.len() as int),
            r@ == kept_tracks(orig.take(k)),
        decreases rem@.len(),
    {
        proof {
            assert(orig.take(k + 1).drop_last() =~= orig.take(k));
            assert(orig.take(k + 1).last() == orig[k]);
            assert(rem@[0] == orig[k]);
        }
        let item = rem.remove(0);
        match item {
            Some(t) => {
                r.push(t);
            }
            None => {}
        }
        proof {
            assert(rem@ =~= orig.subrange(k + 1, orig.len() as int));
            k = k + 1;
        }
    }
    proof {
        assert(orig.take(orig.len() as int) =~= orig);
    }
    r
}

/// The offset of the page after one of `limit` items at `offset`.
pub fn next_page_offset(offset: u32, limit: u32) -> (r: u32)
    requires
        offset + limit <= u32::MAX,
    ensures
        r == offset + limit,
{
    offset + limit
}

/// Whether paging is exhausted: the next offset reaches the reported total.
pub fn fetch_page_done(next_offset: u32, total: u32) -> (r: bool)
    ensures
        r == (next_offset >= total),
{
    next_offset >= total
}

/// Whether the liked-songs fetch stops: paging exhausted, or the bounded
/// total of 200 entries reached.
pub fn liked_fetch_done(next_offset: u32, total: u32, collected: usize) -> (r: bool)
    ensures
        r == (next_offset >= total || collected >= 200),
{
    next_offset >= total || collected >= 200
}

} // verus!
