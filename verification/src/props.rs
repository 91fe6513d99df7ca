use vstd::prelude::*;
use crate::action::Action;
use crate::app::{move_down_rel, move_up_rel, step_down, step_up, update_rel, App};
use crate::model::{PlaybackContext, SavedTrack};
use crate::nav::{Panel, Screen};

verus! {

/// The state after one "up" move, as a function.
pub open spec fn spec_move_up(pre: App) -> App {
    match pre.screen {
        Screen::Library => if pre.active_panel == Panel::Left {
            App { playlist_index: step_up(pre.playlist_index as int) as usize, ..pre }
        } else {
            App { track_index: step_up(pre.track_index as int) as usize, ..pre }
        },
        Screen::Search => App { search_index: step_up(pre.search_index as int) as usize, ..pre },
        Screen::LikedSongs => App {
            liked_index: step_up(pre.liked_index as int) as usize,
            ..pre
        },
    }
}

/// The state after one "down" move, as a function.
pub open spec fn spec_move_down(pre: App) -> App {
    match pre.screen {
        Screen::Library => if pre.active_panel == Panel::Left {
            App {
                playlist_index: step_down(
                    pre.playlist_index as int,
                    pre.playlists@.len() as int,
                ) as usize,
                ..pre
            }
        } else {
            App {
                track_index: step_down(
                    pre.track_index as int,
                    pre.playlist_tracks@.len() as int,
                ) as usize,
                ..pre
            }
        },
        Screen::Search => App {
            search_index: step_down(pre.search_index as int, pre.search_results@.len() as int)
                as usize,
            ..pre
        },
        Screen::LikedSongs => App {
            liked_index: step_down(pre.liked_index as int, pre.liked_songs@.len() as int) as usize,
            ..pre
        },
    }
}

/// The state after a whole sequence of moves, true meaning down and false
/// meaning up, applied left to right.
pub open spec fn apply_moves(pre: App, moves: Seq<bool>) -> App
    decreases moves.len(),
{
    if moves.len() == 0 {
        pre
    } else {
        let once = if moves[0] {
            spec_move_down(pre)
        } else {
            spec_move_up(pre)
        };
        apply_moves(once, moves.drop_first())
    }
}

/// `move_up` and `move_down` realize their functional descriptions.
pub proof fn lemma_moves_are_functions(pre: App, post: App)
    ensures
        move_up_rel(pre, post) <==> post == spec_move_up(pre),
        move_down_rel(pre, post) <==> post == spec_move_down(pre),
{
}

/// While playing, the interpolated progress never runs backwards between
/// two reads of the clock under one snapshot, and the duration shown does
/// not change.
pub proof fn lemma_progress_monotone_while_playing(app: App, t1: u64, t2: u64)
    requires
        app.is_playing,
        t1 <= t2,
    ensures
        match (app.spec_interpolated(t1), app.spec_interpolated(t2)) {
            (Some((p1, d1)), Some((p2, d2))) => p1 <= p2 && d1 == d2,
            (None, None) => true,
            _ => false,
        },
{
}

/// While paused, the interpolated progress does not move at all.
pub proof fn lemma_progress_paused_constant(app: App, t1: u64, t2: u64)
    requires
        !app.is_playing,
    ensures
        app.spec_interpolated(t1) == app.spec_interpolated(t2),
{
}

/// The interpolated progress never exceeds the item's duration.
pub proof fn lemma_progress_never_exceeds_duration(app: App, now_ms: u64)
    ensures
        match app.spec_interpolated(now_ms) {
            Some((p, d)) => p <= d,
            None => true,
        },
{
}

/// Across a new snapshot taken at `t_snap`, the displayed progress does not
/// run backwards, provided the snapshot reports at least the progress that
/// was displayed at its arrival and its progress lies within its item's
/// duration. (A server that reports a smaller progress than it did before
/// makes the display jump back; nothing here can prevent that.)
pub proof fn lemma_progress_across_snapshots(
    pre: App,
    ctx: PlaybackContext,
    t_snap: u64,
    post: App,
    t: u64,
)
    requires
        update_rel(pre, Action::NowPlayingUpdated(Some(ctx)), t_snap, post),
        t_snap <= t,
        ({
            let base: int = match ctx.progress_ms {
                Some(p) => p as int,
                None => 0,
            };
            let dur: int = match ctx.item {
                Some(it) => it.spec_duration_ms() as int,
                None => 0,
            };
            &&& base <= dur
            &&& match pre.spec_interpolated(t_snap) {
                Some((p_old, d_old)) => base >= p_old,
                None => true,
            }
        }),
    ensures
        match (pre.spec_interpolated(t_snap), post.spec_interpolated(t)) {
            (Some((p_old, d_old)), Some((p_new, d_new))) => p_new >= p_old,
            _ => true,
        },
{
}

/// Any number of up or down moves keeps every selected index inside its
/// list: within [0, len-1] while the list is non-empty, and pinned at 0
/// while it is empty. One step preserves well-formedness, so any chain of
/// steps does.
pub proof fn lemma_navigation_bounds(pre: App, post: App)
    requires
        pre.wf(),
        move_up_rel(pre, post) || move_down_rel(pre, post),
    ensures
        post.wf(),
        post.playlists@.len() == 0 ==> post.playlist_index == 0,
        post.playlists@.len() > 0 ==> post.playlist_index < post.playlists@.len(),
        post.playlist_tracks@.len() == 0 ==> post.track_index == 0,
        post.playlist_tracks@.len() > 0 ==> post.track_index < post.playlist_tracks@.len(),
        post.search_results@.len() == 0 ==> post.search_index == 0,
        post.search_results@.len() > 0 ==> post.search_index < post.search_results@.len(),
        post.liked_songs@.len() == 0 ==> post.liked_index == 0,
        post.liked_songs@.len() > 0 ==> post.liked_index < post.liked_songs@.len(),
{
}

/// After any number of up or down moves, every selected index stays within
/// [0, len-1] of its list while the list is non-empty, and stays 0 while
/// the list is empty.
pub proof fn lemma_navigation_bounds_any_number(pre: App, moves: Seq<bool>)
    requires
        pre.wf(),
    ensures
        apply_moves(pre, moves).wf(),
    decreases moves.len(),
{
    if moves.len() > 0 {
        let once = if moves[0] {
            spec_move_down(pre)
        } else {
            spec_move_up(pre)
        };
        lemma_moves_are_functions(pre, once);
        lemma_navigation_bounds(pre, once);
        lemma_navigation_bounds_any_number(once, moves.drop_first());
    }
}

/// Reloading the liked-songs list with identical server data leaves an
/// identical liked-id cache, and so an identical liked-id set, whatever
/// state each load started from and whenever each arrived.
pub proof fn lemma_liked_reload_idempotent(
    pre1: App,
    post1: App,
    pre2: App,
    post2: App,
    songs: Vec<SavedTrack>,
    t1: u64,
    t2: u64,
)
    requires
        update_rel(pre1, Action::LikedSongsLoaded(songs), t1, post1),
        update_rel(pre2, Action::LikedSongsLoaded(songs), t2, post2),
    ensures
        post1.liked_track_ids.deep_view() == post2.liked_track_ids.deep_view(),
        post1.liked_ids() == post2.liked_ids(),
{
}

} // verus!
