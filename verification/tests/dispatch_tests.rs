use crabify::action::{Action, IoEvent};
use crabify::dispatch::{
    collect_present_tracks, devices_outcome, failure_action, fetch_now_playing_outcome,
    fetch_page_done, liked_fetch_done, liked_songs_outcome, next_page_offset, play_pause_step,
    playlist_tracks_outcome, playlists_outcome, refetch_now_playing_outcome, search_outcome,
    settle_delay_ms, toggle_like_outcome, volume_down_target, volume_step, volume_up_target,
    FailedOp,
};
use crabify::model::{Device, PlayableItem, PlaybackContext, Playlist, SavedTrack, Track};

fn track(id: &str) -> Track {
    Track {
        id: Some(id.to_string()),
        name: id.to_string(),
        artists: vec![],
        duration_ms: 1000,
    }
}

fn snapshot(volume: Option<u8>, is_playing: bool) -> PlaybackContext {
    PlaybackContext {
        is_playing,
        device: Device { id: None, name: "dev".to_string(), volume_percent: volume },
        item: Some(PlayableItem::Track(track("t"))),
        progress_ms: Some(0),
    }
}

#[test]
fn volume_up_clamps_to_hundred() {
    // At 98%, volume up asks for 100, not 103.
    assert_eq!(volume_up_target(98), 100);
    assert_eq!(volume_up_target(95), 100);
    assert_eq!(volume_up_target(0), 5);
    assert_eq!(volume_up_target(100), 100);
}

#[test]
fn volume_down_clamps_to_zero() {
    // At 3%, volume down asks for 0, never a negative value.
    assert_eq!(volume_down_target(3), 0);
    assert_eq!(volume_down_target(5), 0);
    assert_eq!(volume_down_target(100), 95);
    assert_eq!(volume_down_target(0), 0);
}

#[test]
fn volume_step_uses_reported_volume() {
    match volume_step(Ok(Some(snapshot(Some(98), true))), true) {
        Ok(v) => assert_eq!(v, 100),
        Err(a) => panic!("unexpected error {:?}", a),
    }
    match volume_step(Ok(Some(snapshot(Some(3), true))), false) {
        Ok(v) => assert_eq!(v, 0),
        Err(a) => panic!("unexpected error {:?}", a),
    }
}

#[test]
fn volume_step_defaults_to_fifty() {
    match volume_step(Ok(Some(snapshot(None, true))), true) {
        Ok(v) => assert_eq!(v, 55),
        Err(a) => panic!("unexpected error {:?}", a),
    }
}

#[test]
fn volume_step_without_device_errors() {
    match volume_step(Ok(None), true) {
        Err(Action::Error(m)) => assert_eq!(m, "No active device"),
        other => panic!("expected error, got {:?}", other),
    }
    match volume_step(Err("down".to_string()), false) {
        Err(Action::Error(m)) => assert_eq!(m, "down"),
        other => panic!("expected error, got {:?}", other),
    }
}

#[test]
fn play_pause_step_decides_direction() {
    match play_pause_step(Ok(Some(snapshot(None, true)))) {
        Ok(is_playing) => assert!(is_playing),
        Err(a) => panic!("unexpected error {:?}", a),
    }
    match play_pause_step(Ok(None)) {
        Err(Action::Error(m)) => assert_eq!(m, "No active device found"),
        other => panic!("expected error, got {:?}", other),
    }
    match play_pause_step(Err("net".to_string())) {
        Err(Action::Error(m)) => assert_eq!(m, "Failed to fetch playback: net"),
        other => panic!("expected error, got {:?}", other),
    }
}

#[test]
fn fetch_now_playing_outcome_maps_both_ways() {
    match fetch_now_playing_outcome(Ok(Some(snapshot(None, false)))) {
        Action::NowPlayingUpdated(Some(ctx)) => assert!(!ctx.is_playing),
        other => panic!("expected NowPlayingUpdated, got {:?}", other),
    }
    match fetch_now_playing_outcome(Err("net".to_string())) {
        Action::Error(m) => assert_eq!(m, "Failed to fetch playback: net"),
        other => panic!("expected Error, got {:?}", other),
    }
}

#[test]
fn refetch_outcome_passes_error_through_bare() {
    match refetch_now_playing_outcome(Err("raw".to_string())) {
        Action::Error(m) => assert_eq!(m, "raw"),
        other => panic!("expected Error, got {:?}", other),
    }
}

#[test]
fn list_outcomes_map_success() {
    match playlists_outcome(Ok(vec![Playlist { id: "p".to_string(), name: "P".to_string() }])) {
        Action::PlaylistsLoaded(ps) => assert_eq!(ps.len(), 1),
        other => panic!("expected PlaylistsLoaded, got {:?}", other),
    }
    match playlist_tracks_outcome(Ok(vec![track("a")])) {
        Action::PlaylistTracksLoaded(ts) => assert_eq!(ts.len(), 1),
        other => panic!("expected PlaylistTracksLoaded, got {:?}", other),
    }
    match search_outcome(Ok(vec![track("a")])) {
        Action::SearchResultsLoaded { tracks } => assert_eq!(tracks.len(), 1),
        other => panic!("expected SearchResultsLoaded, got {:?}", other),
    }
    match liked_songs_outcome(Ok(vec![SavedTrack { track: track("a") }])) {
        Action::LikedSongsLoaded(songs) => assert_eq!(songs.len(), 1),
        other => panic!("expected LikedSongsLoaded, got {:?}", other),
    }
    match devices_outcome(Ok(vec![])) {
        Action::DevicesLoaded(ds) => assert!(ds.is_empty()),
        other => panic!("expected DevicesLoaded, got {:?}", other),
    }
}

#[test]
fn list_outcomes_map_failures_with_prefixes() {
    let msg = |a: Action| match a {
        Action::Error(m) => m,
        other => panic!("expected Error, got {:?}", other),
    };
    assert_eq!(msg(playlists_outcome(Err("x".to_string()))), "Failed to fetch playlists: x");
    assert_eq!(msg(playlist_tracks_outcome(Err("x".to_string()))), "Failed to fetch tracks: x");
    assert_eq!(msg(search_outcome(Err("x".to_string()))), "Search failed: x");
    assert_eq!(msg(liked_songs_outcome(Err("x".to_string()))), "Failed to fetch liked songs: x");
    assert_eq!(msg(devices_outcome(Err("x".to_string()))), "Failed to fetch devices: x");
}

#[test]
fn failure_action_prefixes() {
    let msg = |op: FailedOp| match failure_action(op, "e".to_string()) {
        Action::Error(m) => m,
        other => panic!("expected Error, got {:?}", other),
    };
    assert_eq!(msg(FailedOp::PlaybackControl), "Playback control failed: e");
    assert_eq!(msg(FailedOp::NextTrack), "Next track failed: e");
    assert_eq!(msg(FailedOp::PreviousTrack), "Previous track failed: e");
    assert_eq!(msg(FailedOp::VolumeChange), "Volume change failed: e");
    assert_eq!(msg(FailedOp::PlayTrack), "Failed to play track: e");
    assert_eq!(msg(FailedOp::Unlike), "Failed to unlike: e");
    assert_eq!(msg(FailedOp::Like), "Failed to like: e");
}

#[test]
fn toggle_like_outcome_flips_status() {
    match toggle_like_outcome("id1".to_string(), false, Ok(())) {
        Action::LikeToggled { track_id, is_liked } => {
            assert_eq!(track_id, "id1");
            assert!(is_liked);
        }
        other => panic!("expected LikeToggled, got {:?}", other),
    }
    match toggle_like_outcome("id1".to_string(), true, Ok(())) {
        Action::LikeToggled { is_liked, .. } => assert!(!is_liked),
        other => panic!("expected LikeToggled, got {:?}", other),
    }
    match toggle_like_outcome("id1".to_string(), true, Err("e".to_string())) {
        Action::Error(m) => assert_eq!(m, "Failed to unlike: e"),
        other => panic!("expected Error, got {:?}", other),
    }
    match toggle_like_outcome("id1".to_string(), false, Err("e".to_string())) {
        Action::Error(m) => assert_eq!(m, "Failed to like: e"),
        other => panic!("expected Error, got {:?}", other),
    }
}

#[test]
fn settle_delays_match_operations() {
    assert_eq!(settle_delay_ms(&IoEvent::PlayPause), 200);
    assert_eq!(settle_delay_ms(&IoEvent::VolumeUp), 200);
    assert_eq!(settle_delay_ms(&IoEvent::VolumeDown), 200);
    assert_eq!(settle_delay_ms(&IoEvent::NextTrack), 300);
    assert_eq!(settle_delay_ms(&IoEvent::PreviousTrack), 300);
    assert_eq!(settle_delay_ms(&IoEvent::PlayTrack("t".to_string())), 300);
    assert_eq!(
        settle_delay_ms(&IoEvent::PlayTrackInContext { context_uri: "c".to_string(), offset: 0 }),
        300
    );
    assert_eq!(settle_delay_ms(&IoEvent::FetchPlaylists), 0);
}

#[test]
fn collect_present_tracks_skips_gaps() {
    let items = vec![Some(track("a")), None, Some(track("b")), None];
    let kept = collect_present_tracks(items);
    let ids: Vec<_> = kept.iter().map(|t| t.id.clone().unwrap()).collect();
    assert_eq!(ids, vec!["a".to_string(), "b".to_string()]);
}

#[test]
fn paging_decisions() {
    assert_eq!(next_page_offset(0, 50), 50);
    assert!(!fetch_page_done(50, 120));
    assert!(fetch_page_done(150, 120));
    assert!(fetch_page_done(120, 120));
    assert!(!liked_fetch_done(50, 300, 50));
    assert!(liked_fetch_done(50, 300, 200));
    assert!(liked_fetch_done(300, 300, 10));
}
