use vstd::prelude::*;
use vstd::string::StringExecFns;
use crate::action::{Action, IoEvent};
use crate::model::{Device, PlaybackContext, PlayableItem, Playlist, SavedTrack, Track};
use crate::nav::{InputMode, Panel, Screen};

verus! {

/// No two entries of `ids` spell the same identifier.
pub open spec fn no_dup_ids(ids: Seq<Seq<char>>) -> bool {
    forall|i: int, j: int| 0 <= i < j < ids.len() ==> ids[i] != ids[j]
}

/// Index after one "down" move in a list of length `len`:
/// one step down, stopping at the last entry, and immobile on an empty list.
pub open spec fn step_down(i: int, len: int) -> int {
    if i + 1 < len {
        i + 1
    } else {
        i
    }
}

/// Index after one "up" move: one step up, stopping at the first entry.
pub open spec fn step_up(i: int) -> int {
    if i > 0 {
        i - 1
    } else {
        0
    }
}

/// The single mutable aggregate of view state. It is mutated only through
/// the methods below; every method keeps `wf`.
pub struct App {
    pub running: bool,
    pub screen: Screen,
    pub input_mode: InputMode,
    pub active_panel: Panel,
    pub show_help: bool,

    pub now_playing: Option<PlaybackContext>,
    pub is_playing: bool,
    pub volume: u8,

    pub playlists: Vec<Playlist>,
    pub playlist_index: usize,
    pub playlist_tracks: Vec<Track>,
    pub track_index: usize,
    pub selected_playlist_id: Option<String>,

    pub search_input: String,
    pub search_results: Vec<Track>,
    pub search_index: usize,

    pub liked_songs: Vec<SavedTrack>,
    pub liked_index: usize,
    pub liked_track_ids: Vec<String>,

    pub devices: Vec<Device>,

    pub flash_message: Option<(String, u64)>,
    pub loading: bool,

    pub io_queue: Vec<IoEvent>,

    pub tick_count: u32,

    pub last_playback_update: Option<u64>,
}

impl App {
    /// Every selected index is a valid index of its list whenever the list is
    /// non-empty and zero otherwise, and the liked-id cache holds no duplicates.
    pub open spec fn wf(self) -> bool {
        &&& if self.playlists@.len() == 0 {
            self.playlist_index == 0
        } else {
            self.playlist_index < self.playlists@.len()
        }
        &&& if self.playlist_tracks@.len() == 0 {
            self.track_index == 0
        } else {
            self.track_index < self.playlist_tracks@.len()
        }
        &&& if self.search_results@.len() == 0 {
            self.search_index == 0
        } else {
            self.search_index < self.search_results@.len()
        }
        &&& if self.liked_songs@.len() == 0 {
            self.liked_index == 0
        } else {
            self.liked_index < self.liked_songs@.len()
        }
        &&& no_dup_ids(self.liked_track_ids.deep_view())
    }

    /// The set of identifiers the liked-id cache currently holds.
    pub open spec fn liked_ids(self) -> Set<Seq<char>> {
        self.liked_track_ids.deep_view().to_set()
    }

    /// A fresh state: Library screen, left panel, normal input mode, nothing
    /// loaded, volume at 50, not loading, no pending requests.
    pub fn new() -> (r: App)
        ensures
            r.running == true,
            r.screen == Screen::Library,
            r.input_mode == InputMode::Normal,
            r.active_panel == Panel::Left,
            r.show_help == false,
            r.now_playing is None,
            r.is_playing == false,
            r.volume == 50,
            r.playlists@ == Seq::<Playlist>::empty(),
            r.playlist_index == 0,
            r.playlist_tracks@ == Seq::<Track>::empty(),
            r.track_index == 0,
            r.selected_playlist_id is None,
            r.search_input@ == Seq::<char>::empty(),
            r.search_results@ == Seq::<Track>::empty(),
            r.search_index == 0,
            r.liked_songs@ == Seq::<SavedTrack>::empty(),
            r.liked_index == 0,
            r.liked_track_ids@ == Seq::<String>::empty(),
            r.devices@ == Seq::<Device>::empty(),
            r.flash_message is None,
            r.loading == false,
            r.io_queue@ == Seq::<IoEvent>::empty(),
            r.tick_count == 0,
            r.last_playback_update is None,
            r.wf(),
    {
        let r = App {
            running: true,
            screen: Screen::Library,
            input_mode: InputMode::Normal,
            active_panel: Panel::Left,
            show_help: false,
            now_playing: None,
            is_playing: false,
            volume: 50,
            playlists: Vec::new(),
            playlist_index: 0,
            playlist_tracks: Vec::new(),
            track_index: 0,
            selected_playlist_id: None,
            search_input: String::new(),
            search_results: Vec::new(),
            search_index: 0,
            liked_songs: Vec::new(),
            liked_index: 0,
            liked_track_ids: Vec::new(),
            devices: Vec::new(),
            flash_message: None,
            loading: false,
            io_queue: Vec::new(),
            tick_count: 0,
            last_playback_update: None,
        };
        proof {
            assert(r.liked_track_ids.deep_view() =~= Seq::<Seq<char>>::empty());
        }
        r
    }

    /// Queues one IO request for the worker to pick up, touching nothing else.
    pub fn dispatch_io(&mut self, event: IoEvent)
        ensures
            *final(self) == (App { io_queue: final(self).io_queue, ..*old(self) }),
            final(self).io_queue@ == old(self).io_queue@.push(event),
            old(self).wf() ==> final(self).wf(),
    {
        self.io_queue.push(event);
    }

    /// Flips the active panel between Left and Right.
    pub fn toggle_panel(&mut self)
        ensures
            toggle_panel_rel(*old(self), *final(self)),
            old(self).wf() ==> final(self).wf(),
    {
        self.active_panel = match self.active_panel {
            Panel::Left => Panel::Right,
            Panel::Right => Panel::Left,
        };
    }

    /// Moves the selection of the active list one entry up.
    pub fn move_up(&mut self)
        ensures
            move_up_rel(*old(self), *final(self)),
            old(self).wf() ==> final(self).wf(),
    {
        match self.screen {
            Screen::Library => {
                if self.active_panel == Panel::Left {
                    if self.playlist_index > 0 {
                        self.playlist_index = self.playlist_index - 1;
                    }
                } else {
                    if self.track_index > 0 {
                        self.track_index = self.track_index - 1;
                    }
                }
            }
            Screen::Search => {
                if self.search_index > 0 {
                    self.search_index = self.search_index - 1;
                }
            }
            Screen::LikedSongs => {
                if self.liked_index > 0 {
                    self.liked_index = self.liked_index - 1;
                }
            }
        }
    }

    /// Moves the selection of the active list one entry down.
    pub fn move_down(&mut self)
        ensures
            move_down_rel(*old(self), *final(self)),
            old(self).wf() ==> final(self).wf(),
    {
        match self.screen {
            Screen::Library => {
                if self.active_panel == Panel::Left {
                    if self.playlists.len() > 0 && self.playlist_index < self.playlists.len() - 1 {
                        self.playlist_index = self.playlist_index + 1;
                    }
                } else {
                    if self.playlist_tracks.len() > 0 && self.track_index < self.playlist_tracks.len() - 1 {
                        self.track_index = self.track_index + 1;
                    }
                }
            }
            Screen::Search => {
                if self.search_results.len() > 0 && self.search_index < self.search_results.len() - 1 {
                    self.search_index = self.search_index + 1;
                }
            }
            Screen::LikedSongs => {
                if self.liked_songs.len() > 0 && self.liked_index < self.liked_songs.len() - 1 {
                    self.liked_index = self.liked_index + 1;
                }
            }
        }
    }

    /// Replaces the flash message with `msg`, stamped at `now_ms`.
    pub fn set_flash(&mut self, msg: String, now_ms: u64)
        ensures
            *final(self) == (App { flash_message: Some((msg, now_ms)), ..*old(self) }),
            old(self).wf() ==> final(self).wf(),
    {
        self.flash_message = Some((msg, now_ms));
    }

    /// One timer tick at wall-clock `now_ms`: counts the tick, asks for the
    /// playback state every 20th tick, and drops a flash message older than
    /// five seconds.
    pub fn on_tick(&mut self, now_ms: u64)
        ensures
            on_tick_rel(*old(self), now_ms, *final(self)),
            old(self).wf() ==> final(self).wf(),
    {
        let new_count: u32 = if self.tick_count == u32::MAX {
            0
        } else {
            self.tick_count + 1
        };
        self.tick_count = new_count;
        if new_count % 20 == 0 {
            self.io_queue.push(IoEvent::FetchNowPlaying);
        }
        let expired: bool = match &self.flash_message {
            Some((_, t)) => now_ms > *t && now_ms - *t > 5000,
            None => false,
        };
        if expired {
            self.flash_message = None;
        }
    }

    /// Switches to the next screen of the ring and performs screen entry.
    pub fn next_screen(&mut self)
        ensures
            screen_entry_rel(
                App { screen: old(self).screen.spec_next(), ..*old(self) },
                *final(self),
            ),
            old(self).wf() ==> final(self).wf(),
    {
        self.screen = self.screen.next();
        self.on_screen_change();
    }

    /// Switches to the previous screen of the ring and performs screen entry.
    pub fn prev_screen(&mut self)
        ensures
            screen_entry_rel(
                App { screen: old(self).screen.spec_prev(), ..*old(self) },
                *final(self),
            ),
            old(self).wf() ==> final(self).wf(),
    {
        self.screen = self.screen.prev();
        self.on_screen_change();
    }

    /// Entry into the screen already stored in `self.screen`: the panel
    /// resets to Left, and a screen whose backing list is empty issues its
    /// fetch and sets loading.
    fn on_screen_change(&mut self)
        ensures
            screen_entry_rel(*old(self), *final(self)),
            old(self).wf() ==> final(self).wf(),
    {
        self.active_panel = Panel::Left;
        match self.screen {
            Screen::Library => {
                if self.playlists.len() == 0 {
                    self.loading = true;
                    self.io_queue.push(IoEvent::FetchPlaylists);
                }
            }
            Screen::LikedSongs => {
                if self.liked_songs.len() == 0 {
                    self.loading = true;
                    self.io_queue.push(IoEvent::FetchLikedSongs);
                }
            }
            Screen::Search => {}
        }
    }

    /// Folds one state update into the view state at wall-clock `now_ms`.
    pub fn update(&mut self, action: Action, now_ms: u64)
        ensures
            update_rel(*old(self), action, now_ms, *final(self)),
            old(self).wf() ==> final(self).wf(),
    {
        match action {
            Action::NowPlayingUpdated(ctx) => {
                match &ctx {
                    Some(c) => {
                        self.is_playing = c.is_playing;
                        match c.device.volume_percent {
                            Some(v) => {
                                self.volume = v;
                            }
                            None => {}
                        }
                    }
                    None => {}
                }
                self.now_playing = ctx;
                self.last_playback_update = Some(now_ms);
            }
            Action::PlaylistsLoaded(playlists) => {
                self.playlists = playlists;
                self.playlist_index = 0;
                self.loading = false;
            }
            Action::PlaylistTracksLoaded(tracks) => {
                self.playlist_tracks = tracks;
                self.track_index = 0;
                self.loading = false;
            }
            Action::SearchResultsLoaded { tracks } => {
                self.search_results = tracks;
                self.search_index = 0;
                self.loading = false;
            }
            Action::LikedSongsLoaded(songs) => {
                let mut ids: Vec<String> = Vec::new();
                let mut i: usize = 0;
                while i < songs.len()
                    invariant
                        i <= songs@.len(),
                        ids.deep_view() == distinct_track_ids(songs@.take(i as int)),
                    decreases songs@.len() - i,
                {
                    proof {
                        assert(songs@.take(i as int + 1).drop_last() =~= songs@.take(i as int));
                        assert(songs@.take(i as int + 1).last() == songs@[i as int]);
                    }
                    match &songs[i].track.id {
                        Some(id) => {
                            if !contains_id(&ids, id) {
                                let ghost old_deep = ids.deep_view();
                                ids.push(id.clone());
                                proof {
                                    assert(ids.deep_view() =~= old_deep.push(id@));
                                }
                            }
                        }
                        None => {}
                    }
                    i = i + 1;
                }
                proof {
                    assert(songs@.take(songs@.len() as int) =~= songs@);
                    lemma_distinct_track_ids_no_dup(songs@);
                }
                self.liked_track_ids = ids;
                self.liked_songs = songs;
                self.liked_index = 0;
                self.loading = false;
            }
            Action::LikeToggled { track_id, is_liked } => {
                if is_liked {
                    if !contains_id(&self.liked_track_ids, &track_id) {
                        let ghost old_deep = self.liked_track_ids.deep_view();
                        let ghost idv = track_id@;
                        self.liked_track_ids.push(track_id);
                        proof {
                            assert(self.liked_track_ids.deep_view() =~= old_deep.push(idv));
                            if old(self).wf() {
                                lemma_no_dup_insert(old_deep, idv);
                            }
                        }
                    }
                } else {
                    remove_id(&mut self.liked_track_ids, &track_id);
                    proof {
                        if old(self).wf() {
                            lemma_no_dup_remove(
                                old(self).liked_track_ids.deep_view(),
                                track_id@,
                            );
                        }
                    }
                }
            }
            Action::Error(msg) => {
                self.flash_message = Some((msg, now_ms));
                self.loading = false;
            }
            Action::DevicesLoaded(devices) => {
                self.devices = devices;
            }
        }
    }

    /// The identifier of the track playing right now, if a track is playing.
    pub open spec fn spec_now_playing_track_id(self) -> Option<String> {
        match self.now_playing {
            Some(ctx) => match ctx.item {
                Some(PlayableItem::Track(t)) => t.id,
                _ => None,
            },
            None => None,
        }
    }

    /// Returns the identifier of the currently playing track, if any.
    pub fn now_playing_track_id(&self) -> (r: Option<String>)
        ensures
            r == self.spec_now_playing_track_id(),
    {
        match &self.now_playing {
            Some(ctx) => match &ctx.item {
                Some(PlayableItem::Track(t)) => match &t.id {
                    Some(id) => Some(id.clone()),
                    None => None,
                },
                _ => None,
            },
            None => None,
        }
    }

    /// The track a like-toggle would aim at: the highlighted entry of the
    /// active screen's list, falling back to the currently playing track.
    pub open spec fn spec_like_target(self) -> Option<String> {
        let sel = match self.screen {
            Screen::Library => if self.track_index < self.playlist_tracks@.len() {
                self.playlist_tracks@[self.track_index as int].id
            } else {
                None
            },
            Screen::Search => if self.search_index < self.search_results@.len() {
                self.search_results@[self.search_index as int].id
            } else {
                None
            },
            Screen::LikedSongs => if self.liked_index < self.liked_songs@.len() {
                self.liked_songs@[self.liked_index as int].track.id
            } else {
                None
            },
        };
        match sel {
            Some(id) => Some(id),
            None => self.spec_now_playing_track_id(),
        }
    }

    /// Activates the highlighted entry: selects a playlist and loads its
    /// tracks, plays a track, or submits the search query, depending on
    /// screen, panel and input mode.
    pub fn on_enter(&mut self)
        ensures
            on_enter_rel(*old(self), *final(self)),
            old(self).wf() ==> final(self).wf(),
    {
        match self.screen {
            Screen::Library => {
                if self.active_panel == Panel::Left {
                    if self.playlist_index < self.playlists.len() {
                        let id = self.playlists[self.playlist_index].id.clone();
                        self.selected_playlist_id = Some(id.clone());
                        self.loading = true;
                        self.io_queue.push(IoEvent::FetchPlaylistTracks(id));
                        self.active_panel = Panel::Right;
                    }
                } else {
                    let pid_opt: Option<String> = match &self.selected_playlist_id {
                        Some(p) => Some(p.clone()),
                        None => None,
                    };
                    match pid_opt {
                        Some(pid) => {
                            let offset = self.track_index;
                            self.io_queue.push(
                                IoEvent::PlayTrackInContext { context_uri: pid, offset },
                            );
                        }
                        None => {}
                    }
                }
            }
            Screen::Search => {
                if self.input_mode == InputMode::Editing {
                    if !self.search_input.as_str().is_empty() {
                        let query = self.search_input.clone();
                        self.loading = true;
                        self.io_queue.push(IoEvent::Search(query));
                    }
                    self.input_mode = InputMode::Normal;
                } else {
                    if self.search_index < self.search_results.len() {
                        let id_opt: Option<String> = match &self.search_results[self.search_index].id {
                            Some(id) => Some(id.clone()),
                            None => None,
                        };
                        match id_opt {
                            Some(id) => {
                                self.io_queue.push(IoEvent::PlayTrack(id));
                            }
                            None => {}
                        }
                    }
                }
            }
            Screen::LikedSongs => {
                if self.liked_index < self.liked_songs.len() {
                    let id_opt: Option<String> = match &self.liked_songs[self.liked_index].track.id {
                        Some(id) => Some(id.clone()),
                        None => None,
                    };
                    match id_opt {
                        Some(id) => {
                            self.io_queue.push(IoEvent::PlayTrack(id));
                        }
                        None => {}
                    }
                }
            }
        }
    }

    /// Toggles the liked state of the target track (highlighted entry, else
    /// the playing track), sending along its currently known liked status.
    pub fn toggle_like(&mut self)
        ensures
            toggle_like_rel(*old(self), *final(self)),
            old(self).wf() ==> final(self).wf(),
    {
        let sel: Option<String> = match self.screen {
            Screen::Library => {
                if self.track_index < self.playlist_tracks.len() {
                    match &self.playlist_tracks[self.track_index].id {
                        Some(id) => Some(id.clone()),
                        None => None,
                    }
                } else {
                    None
                }
            }
            Screen::Search => {
                if self.search_index < self.search_results.len() {
                    match &self.search_results[self.search_index].id {
                        Some(id) => Some(id.clone()),
                        None => None,
                    }
                } else {
                    None
                }
            }
            Screen::LikedSongs => {
                if self.liked_index < self.liked_songs.len() {
                    match &self.liked_songs[self.liked_index].track.id {
                        Some(id) => Some(id.clone()),
                        None => None,
                    }
                } else {
                    None
                }
            }
        };
        let target: Option<String> = match sel {
            Some(id) => Some(id),
            None => self.now_playing_track_id(),
        };
        match target {
            Some(id) => {
                let currently_liked = contains_id(&self.liked_track_ids, &id);
                self.io_queue.push(IoEvent::ToggleLike { track_id: id, currently_liked });
            }
            None => {}
        }
    }

    /// Toggles the liked state of the currently playing track, if any.
    pub fn toggle_like_now_playing(&mut self)
        ensures
            toggle_like_now_playing_rel(*old(self), *final(self)),
            old(self).wf() ==> final(self).wf(),
    {
        match self.now_playing_track_id() {
            Some(id) => {
                let currently_liked = contains_id(&self.liked_track_ids, &id);
                self.io_queue.push(IoEvent::ToggleLike { track_id: id, currently_liked });
            }
            None => {}
        }
    }

    /// The interpolated playback position at wall-clock `now_ms`, with the
    /// item's duration: the last reported progress, advanced by the time
    /// since the snapshot while playing, and clamped to the duration. None
    /// while no snapshot is known.
    pub open spec fn spec_interpolated(self, now_ms: u64) -> Option<(u64, u64)> {
        match self.now_playing {
            Some(ctx) => {
                let base: int = match ctx.progress_ms {
                    Some(p) => p as int,
                    None => 0,
                };
                let dur: int = match ctx.item {
                    Some(it) => it.spec_duration_ms() as int,
                    None => 0,
                };
                let elapsed: int = match self.last_playback_update {
                    Some(t) => if now_ms > t {
                        now_ms - t
                    } else {
                        0
                    },
                    None => 0,
                };
                let raw: int = if self.is_playing {
                    base + elapsed
                } else {
                    base
                };
                let prog: int = if raw <= dur {
                    raw
                } else {
                    dur
                };
                Some((prog as u64, dur as u64))
            },
            None => None,
        }
    }

    /// Computes the displayed playback position and duration at `now_ms`,
    /// in milliseconds. Purely a display computation: reads the snapshot,
    /// never writes it.
    pub fn interpolated_progress_ms(&self, now_ms: u64) -> (r: Option<(u64, u64)>)
        ensures
            r == self.spec_interpolated(now_ms),
    {
        match &self.now_playing {
            Some(ctx) => {
                let base: u64 = match ctx.progress_ms {
                    Some(p) => p,
                    None => 0,
                };
                let dur: u64 = match &ctx.item {
                    Some(it) => it.duration_ms(),
                    None => 0,
                };
                let elapsed: u64 = match self.last_playback_update {
                    Some(t) => if now_ms > t {
                        now_ms - t
                    } else {
                        0
                    },
                    None => 0,
                };
                let prog: u64 = if self.is_playing {
                    if base <= dur && elapsed <= dur - base {
                        base + elapsed
                    } else {
                        dur
                    }
                } else {
                    if base <= dur {
                        base
                    } else {
                        dur
                    }
                };
                Some((prog, dur))
            }
            None => None,
        }
    }

    /// The displayed "position / duration" line at wall-clock `now_ms`.
    pub open spec fn spec_progress_text(self, now_ms: u64) -> Seq<char> {
        match self.spec_interpolated(now_ms) {
            Some((p, d)) => spec_format_duration(p as int) + " / "@ + spec_format_duration(
                d as int,
            ),
            None => Seq::empty(),
        }
    }

    /// Renders the playback position as "m:ss / m:ss", or empty text while
    /// no snapshot is known.
    pub fn progress_text(&self, now_ms: u64) -> (r: String)
        ensures
            r@ == self.spec_progress_text(now_ms),
    {
        match self.interpolated_progress_ms(now_ms) {
            Some((p, d)) => {
                let mut s = format_duration(p);
                s.append(" / ");
                let t = format_duration(d);
                s.append(t.as_str());
                s
            }
            None => String::new(),
        }
    }

    /// The displayed name of what is playing: "track - artist, artist" for a
    /// track, the episode name for an episode.
    pub open spec fn spec_current_track_name(self) -> Option<Seq<char>> {
        match self.now_playing {
            Some(ctx) => match ctx.item {
                Some(PlayableItem::Track(t)) => Some(
                    t.name@ + " - "@ + spec_join_artists(t.artists.deep_view()),
                ),
                Some(PlayableItem::Episode(e)) => Some(e.name@),
                None => None,
            },
            None => None,
        }
    }

    /// Renders the name of what is playing, if anything is.
    pub fn current_track_name(&self) -> (r: Option<String>)
        ensures
            match r {
                Some(s) => self.spec_current_track_name() == Some(s@),
                None => self.spec_current_track_name() is None,
            },
    {
        match &self.now_playing {
            Some(ctx) => match &ctx.item {
                Some(PlayableItem::Track(t)) => {
                    let mut s = t.name.clone();
                    s.append(" - ");
                    let joined = join_artists(&t.artists);
                    s.append(joined.as_str());
                    Some(s)
                }
                Some(PlayableItem::Episode(e)) => Some(e.name.clone()),
                None => None,
            },
            None => None,
        }
    }

    /// Queues the initial fetches: playback state, playlists, devices.
    pub fn init(&mut self)
        ensures
            *final(self) == (App { io_queue: final(self).io_queue, ..*old(self) }),
            final(self).io_queue@ == old(self).io_queue@.push(IoEvent::FetchNowPlaying).push(
                IoEvent::FetchPlaylists,
            ).push(IoEvent::FetchDevices),
            old(self).wf() ==> final(self).wf(),
    {
        self.io_queue.push(IoEvent::FetchNowPlaying);
        self.io_queue.push(IoEvent::FetchPlaylists);
        self.io_queue.push(IoEvent::FetchDevices);
    }
}

/// The next tick-counter value: one more, wrapping at the top.
pub open spec fn next_tick(c: u32) -> u32 {
    if c == u32::MAX {
        0
    } else {
        (c + 1) as u32
    }
}

/// The flash message after a tick at `now_ms`: cleared once more than five
/// seconds old, otherwise untouched.
pub open spec fn expire_flash(f: Option<(String, u64)>, now_ms: u64) -> Option<(String, u64)> {
    match f {
        Some((m, t)) => if now_ms > t + 5000 {
            None
        } else {
            Some((m, t))
        },
        None => None,
    }
}

/// Transition of `on_tick`: the counter advances, a "fetch now playing"
/// request goes out on every 20th tick, an over-age flash message is cleared,
/// and nothing else changes.
pub open spec fn on_tick_rel(pre: App, now_ms: u64, post: App) -> bool {
    &&& post == (App {
        tick_count: next_tick(pre.tick_count),
        io_queue: post.io_queue,
        flash_message: expire_flash(pre.flash_message, now_ms),
        ..pre
    })
    &&& post.io_queue@ == if next_tick(pre.tick_count) % 20 == 0 {
        pre.io_queue@.push(IoEvent::FetchNowPlaying)
    } else {
        pre.io_queue@
    }
}

/// Transition of `toggle_panel`: only the active panel flips.
pub open spec fn toggle_panel_rel(pre: App, post: App) -> bool {
    post == (App {
        active_panel: match pre.active_panel {
            Panel::Left => Panel::Right,
            Panel::Right => Panel::Left,
        },
        ..pre
    })
}

/// Transition of `move_up`: the index of the list the screen (and, in the
/// Library, the panel) points at steps up; everything else stays.
pub open spec fn move_up_rel(pre: App, post: App) -> bool {
    match pre.screen {
        Screen::Library => if pre.active_panel == Panel::Left {
            post == (App { playlist_index: step_up(pre.playlist_index as int) as usize, ..pre })
        } else {
            post == (App { track_index: step_up(pre.track_index as int) as usize, ..pre })
        },
        Screen::Search => post == (App {
            search_index: step_up(pre.search_index as int) as usize,
            ..pre
        }),
        Screen::LikedSongs => post == (App {
            liked_index: step_up(pre.liked_index as int) as usize,
            ..pre
        }),
    }
}

/// Transition of `move_down`: the index of the active list steps down,
/// stopping at the end of the list; everything else stays.
pub open spec fn move_down_rel(pre: App, post: App) -> bool {
    match pre.screen {
        Screen::Library => if pre.active_panel == Panel::Left {
            post == (App {
                playlist_index: step_down(pre.playlist_index as int, pre.playlists@.len() as int)
                    as usize,
                ..pre
            })
        } else {
            post == (App {
                track_index: step_down(pre.track_index as int, pre.playlist_tracks@.len() as int)
                    as usize,
                ..pre
            })
        },
        Screen::Search => post == (App {
            search_index: step_down(pre.search_index as int, pre.search_results@.len() as int)
                as usize,
            ..pre
        }),
        Screen::LikedSongs => post == (App {
            liked_index: step_down(pre.liked_index as int, pre.liked_songs@.len() as int) as usize,
            ..pre
        }),
    }
}

/// Transition of `on_enter`: what activating the highlighted entry does,
/// by screen, panel and input mode.
pub open spec fn on_enter_rel(pre: App, post: App) -> bool {
    match pre.screen {
        Screen::Library => if pre.active_panel == Panel::Left {
            if pre.playlist_index < pre.playlists@.len() {
                let id = pre.playlists@[pre.playlist_index as int].id;
                &&& post == (App {
                    selected_playlist_id: Some(id),
                    loading: true,
                    active_panel: Panel::Right,
                    io_queue: post.io_queue,
                    ..pre
                })
                &&& post.io_queue@ == pre.io_queue@.push(IoEvent::FetchPlaylistTracks(id))
            } else {
                post == pre
            }
        } else {
            match pre.selected_playlist_id {
                Some(pid) => {
                    &&& post == (App { io_queue: post.io_queue, ..pre })
                    &&& post.io_queue@ == pre.io_queue@.push(
                        IoEvent::PlayTrackInContext {
                            context_uri: pid,
                            offset: pre.track_index,
                        },
                    )
                },
                None => post == pre,
            }
        },
        Screen::Search => if pre.input_mode == InputMode::Editing {
            let submit = pre.search_input@.len() > 0;
            &&& post == (App {
                input_mode: InputMode::Normal,
                loading: if submit {
                    true
                } else {
                    pre.loading
                },
                io_queue: post.io_queue,
                ..pre
            })
            &&& post.io_queue@ == if submit {
                pre.io_queue@.push(IoEvent::Search(pre.search_input))
            } else {
                pre.io_queue@
            }
        } else {
            if pre.search_index < pre.search_results@.len() {
                match pre.search_results@[pre.search_index as int].id {
                    Some(id) => {
                        &&& post == (App { io_queue: post.io_queue, ..pre })
                        &&& post.io_queue@ == pre.io_queue@.push(IoEvent::PlayTrack(id))
                    },
                    None => post == pre,
                }
            } else {
                post == pre
            }
        },
        Screen::LikedSongs => if pre.liked_index < pre.liked_songs@.len() {
            match pre.liked_songs@[pre.liked_index as int].track.id {
                Some(id) => {
                    &&& post == (App { io_queue: post.io_queue, ..pre })
                    &&& post.io_queue@ == pre.io_queue@.push(IoEvent::PlayTrack(id))
                },
                None => post == pre,
            }
        } else {
            post == pre
        },
    }
}

/// Transition of `toggle_like`: if a target track resolves, exactly one
/// like-toggle request goes out, carrying the target's currently known
/// liked status; otherwise nothing changes.
pub open spec fn toggle_like_rel(pre: App, post: App) -> bool {
    match pre.spec_like_target() {
        Some(id) => {
            &&& post == (App { io_queue: post.io_queue, ..pre })
            &&& post.io_queue@ == pre.io_queue@.push(
                IoEvent::ToggleLike {
                    track_id: id,
                    currently_liked: pre.liked_track_ids.deep_view().contains(id@),
                },
            )
        },
        None => post == pre,
    }
}

/// Transition of `toggle_like_now_playing`: as `toggle_like`, but the target
/// is only ever the currently playing track.
pub open spec fn toggle_like_now_playing_rel(pre: App, post: App) -> bool {
    match pre.spec_now_playing_track_id() {
        Some(id) => {
            &&& post == (App { io_queue: post.io_queue, ..pre })
            &&& post.io_queue@ == pre.io_queue@.push(
                IoEvent::ToggleLike {
                    track_id: id,
                    currently_liked: pre.liked_track_ids.deep_view().contains(id@),
                },
            )
        },
        None => post == pre,
    }
}

/// Transition of entering the screen `pre.screen` (already stored): the panel
/// resets to Left; a Library with no playlists, or a LikedSongs with no
/// songs, issues its fetch and raises loading; nothing else changes.
pub open spec fn screen_entry_rel(pre: App, post: App) -> bool {
    let fetch_playlists = pre.screen == Screen::Library && pre.playlists@.len() == 0;
    let fetch_liked = pre.screen == Screen::LikedSongs && pre.liked_songs@.len() == 0;
    &&& post == (App {
        active_panel: Panel::Left,
        loading: if fetch_playlists || fetch_liked {
            true
        } else {
            pre.loading
        },
        io_queue: post.io_queue,
        ..pre
    })
    &&& post.io_queue@ == if fetch_playlists {
        pre.io_queue@.push(IoEvent::FetchPlaylists)
    } else if fetch_liked {
        pre.io_queue@.push(IoEvent::FetchLikedSongs)
    } else {
        pre.io_queue@
    }
}

/// The liked-id cache after an insert: unchanged if the id is already held,
/// else the id appended.
pub open spec fn insert_id_seq(ids: Seq<Seq<char>>, id: Seq<char>) -> Seq<Seq<char>> {
    if ids.contains(id) {
        ids
    } else {
        ids.push(id)
    }
}

/// The identifiers of `songs` that are present, first occurrence each, in
/// order of first occurrence. This is what one load of the liked-songs list
/// leaves in the liked-id cache.
pub open spec fn distinct_track_ids(songs: Seq<SavedTrack>) -> Seq<Seq<char>>
    decreases songs.len(),
{
    if songs.len() == 0 {
        Seq::empty()
    } else {
        let rest = distinct_track_ids(songs.drop_last());
        match songs.last().track.id {
            Some(id) => if rest.contains(id@) {
                rest
            } else {
                rest.push(id@)
            },
            None => rest,
        }
    }
}

/// A rebuilt liked-id cache never holds an identifier twice.
pub proof fn lemma_distinct_track_ids_no_dup(songs: Seq<SavedTrack>)
    ensures
        no_dup_ids(distinct_track_ids(songs)),
    decreases songs.len(),
{
    if songs.len() > 0 {
        lemma_distinct_track_ids_no_dup(songs.drop_last());
        let rest = distinct_track_ids(songs.drop_last());
        match songs.last().track.id {
            Some(id) => {
                lemma_no_dup_insert(rest, id@);
                assert(distinct_track_ids(songs) == insert_id_seq(rest, id@));
            }
            None => {}
        }
    }
}

/// Transition of `update`: one state-update message folded in, exactly as
/// its variant says, at wall-clock `now_ms`.
pub open spec fn update_rel(pre: App, action: Action, now_ms: u64, post: App) -> bool {
    match action {
        Action::NowPlayingUpdated(ctx) => post == (App {
            is_playing: match ctx {
                Some(c) => c.is_playing,
                None => pre.is_playing,
            },
            volume: match ctx {
                Some(c) => match c.device.volume_percent {
                    Some(v) => v,
                    None => pre.volume,
                },
                None => pre.volume,
            },
            now_playing: ctx,
            last_playback_update: Some(now_ms),
            ..pre
        }),
        Action::PlaylistsLoaded(playlists) => post == (App {
            playlists: playlists,
            playlist_index: 0,
            loading: false,
            ..pre
        }),
        Action::PlaylistTracksLoaded(tracks) => post == (App {
            playlist_tracks: tracks,
            track_index: 0,
            loading: false,
            ..pre
        }),
        Action::SearchResultsLoaded { tracks } => post == (App {
            search_results: tracks,
            search_index: 0,
            loading: false,
            ..pre
        }),
        Action::LikedSongsLoaded(songs) => {
            &&& post == (App {
                liked_songs: songs,
                liked_index: 0,
                liked_track_ids: post.liked_track_ids,
                loading: false,
                ..pre
            })
            &&& post.liked_track_ids.deep_view() == distinct_track_ids(songs@)
        },
        Action::LikeToggled { track_id, is_liked } => {
            &&& post == (App { liked_track_ids: post.liked_track_ids, ..pre })
            &&& post.liked_track_ids.deep_view() == if is_liked {
                insert_id_seq(pre.liked_track_ids.deep_view(), track_id@)
            } else {
                pre.liked_track_ids.deep_view().remove_value(track_id@)
            }
        },
        Action::Error(msg) => post == (App {
            flash_message: Some((msg, now_ms)),
            loading: false,
            ..pre
        }),
        Action::DevicesLoaded(devices) => post == (App { devices: devices, ..pre }),
    }
}

/// Whether the cache `ids` holds the identifier spelled by `id`.
fn contains_id(ids: &Vec<String>, id: &String) -> (r: bool)
    ensures
        r == ids.deep_view().contains(id@),
{
    let n = ids.len();
    let mut i: usize = 0;
    while i < n
        invariant
            n == ids@.len(),
            i <= n,
            forall|j: int| 0 <= j < i ==> ids.deep_view()[j] != id@,
        decreases n - i,
    {
        if ids[i].eq(id) {
            proof {
                assert(ids.deep_view()[i as int] == id@);
            }
            return true;
        }
        i = i + 1;
    }
    proof {
        assert forall|j: int| 0 <= j < ids.deep_view().len() implies ids.deep_view()[j] != id@ by {}
    }
    false
}

/// Removes the first (under `no_dup_ids`: the only) entry spelling `id`.
fn remove_id(ids: &mut Vec<String>, id: &String)
    ensures
        final(ids).deep_view() == old(ids).deep_view().remove_value(id@),
{
    let ghost deep = ids.deep_view();
    let n = ids.len();
    let mut i: usize = 0;
    let mut idx: usize = n;
    while i < n
        invariant
            *ids == *old(ids),
            deep == ids.deep_view(),
            n == ids@.len(),
            i <= n,
            idx == n || (idx < i && deep[idx as int] == id@ && forall|j: int|
                0 <= j < idx ==> deep[j] != id@),
            idx == n ==> forall|j: int| 0 <= j < i ==> deep[j] != id@,
        decreases n - i,
    {
        proof {
            assert(deep[i as int] == ids@[i as int]@);
        }
        if idx == n {
            if ids[i].eq(id) {
                idx = i;
            }
        }
        i = i + 1;
    }
    if idx < n {
        proof {
            assert(deep.contains(id@)) by {
                assert(deep[idx as int] == id@);
            }
            deep.index_of_first_ensures(id@);
            let k = deep.index_of_first(id@).unwrap();
            if k < idx as int {
                assert(deep[k] != id@);
                assert(false);
            }
            if k > idx as int {
                assert(deep[idx as int] != id@);
                assert(false);
            }
        }
        ids.remove(idx);
        proof {
            deep.remove_ensures(idx as int);
            assert(ids.deep_view() =~= deep.remove(idx as int));
        }
    } else {
        proof {
            assert(!deep.contains(id@)) by {
                assert forall|j: int| 0 <= j < deep.len() implies deep[j] != id@ by {}
            }
            deep.index_of_first_ensures(id@);
        }
    }
}

/// The decimal digit character for `d` (0 to 9).
pub open spec fn spec_digit_char(d: int) -> char {
    if d == 0 {
        '0'
    } else if d == 1 {
        '1'
    } else if d == 2 {
        '2'
    } else if d == 3 {
        '3'
    } else if d == 4 {
        '4'
    } else if d == 5 {
        '5'
    } else if d == 6 {
        '6'
    } else if d == 7 {
        '7'
    } else if d == 8 {
        '8'
    } else {
        '9'
    }
}

/// The decimal digits of `n`, most significant first, with no leading zero
/// except for zero itself.
pub open spec fn spec_dec_digits(n: int) -> Seq<char>
    decreases n,
{
    if n < 10 {
        seq![spec_digit_char(n)]
    } else {
        spec_dec_digits(n / 10).push(spec_digit_char(n % 10))
    }
}

/// `n` rendered with at least two digits: a leading zero below ten.
pub open spec fn spec_two_digits(n: int) -> Seq<char> {
    if n < 10 {
        seq!['0'].push(spec_digit_char(n))
    } else {
        spec_dec_digits(n)
    }
}

/// A duration of `ms` milliseconds rendered as "m:ss".
pub open spec fn spec_format_duration(ms: int) -> Seq<char> {
    spec_dec_digits(ms / 1000 / 60) + seq![':'] + spec_two_digits((ms / 1000) % 60)
}

/// The text for one decimal digit.
fn digit_str(d: u64) -> (r: &'static str)
    requires
        d < 10,
    ensures
        r@ == seq![spec_digit_char(d as int)],
{
    proof {
        reveal_strlit("0");
        reveal_strlit("1");
        reveal_strlit("2");
        reveal_strlit("3");
        reveal_strlit("4");
        reveal_strlit("5");
        reveal_strlit("6");
        reveal_strlit("7");
        reveal_strlit("8");
        reveal_strlit("9");
    }
    let r = if d == 0 {
        "0"
    } else if d == 1 {
        "1"
    } else if d == 2 {
        "2"
    } else if d == 3 {
        "3"
    } else if d == 4 {
        "4"
    } else if d == 5 {
        "5"
    } else if d == 6 {
        "6"
    } else if d == 7 {
        "7"
    } else if d == 8 {
        "8"
    } else {
        "9"
    };
    proof {
        assert(r@ =~= seq![spec_digit_char(d as int)]);
    }
    r
}

/// Renders `n` in decimal.
fn dec_digits_string(n: u64) -> (r: String)
    ensures
        r@ == spec_dec_digits(n as int),
    decreases n,
{
    if n < 10 {
        let r = String::from_str(digit_str(n));
        proof {
            assert(r@ =~= spec_dec_digits(n as int));
        }
        r
    } else {
        let mut s = dec_digits_string(n / 10);
        s.append(digit_str(n % 10));
        proof {
            assert(s@ =~= spec_dec_digits(n as int));
        }
        s
    }
}

/// Renders a duration of `ms` milliseconds as "m:ss", seconds always two
/// digits.
pub fn format_duration(ms: u64) -> (r: String)
    ensures
        r@ == spec_format_duration(ms as int),
{
    let total_secs = ms / 1000;
    let mins = total_secs / 60;
    let secs = total_secs % 60;
    let mut s = dec_digits_string(mins);
    s.append(":");
    if secs < 10 {
        s.append("0");
        s.append(digit_str(secs));
    } else {
        let t = dec_digits_string(secs);
        s.append(t.as_str());
    }
    proof {
        reveal_strlit(":");
        reveal_strlit("0");
        assert(s@ =~= spec_format_duration(ms as int));
    }
    s
}

/// Artist names joined with ", ", in listing order.
pub open spec fn spec_join_artists(names: Seq<Seq<char>>) -> Seq<char>
    decreases names.len(),
{
    if names.len() == 0 {
        Seq::empty()
    } else if names.len() == 1 {
        names[0]
    } else {
        spec_join_artists(names.drop_last()) + ", "@ + names.last()
    }
}

/// Joins artist names with ", ".
fn join_artists(names: &Vec<String>) -> (r: String)
    ensures
        r@ == spec_join_artists(names.deep_view()),
{
    let mut s = String::new();
    let mut i: usize = 0;
    while i < names.len()
        invariant
            i <= names@.len(),
            s@ == spec_join_artists(names.deep_view().take(i as int)),
        decreases names@.len() - i,
    {
        proof {
            assert(names.deep_view().take(i as int + 1).drop_last() =~= names.deep_view().take(
                i as int,
            ));
            assert(names.deep_view().take(i as int + 1).last() == names.deep_view()[i as int]);
            assert(names.deep_view()[i as int] == names@[i as int]@);
        }
        if i > 0 {
            s.append(", ");
        }
        s.append(names[i].as_str());
        proof {
            assert(s@ =~= spec_join_artists(names.deep_view().take(i as int + 1)));
        }
        i = i + 1;
    }
    proof {
        assert(names.deep_view().take(names.deep_view().len() as int) =~= names.deep_view());
    }
    s
}

/// Removing an identifier keeps the cache free of duplicates.
pub proof fn lemma_no_dup_remove(ids: Seq<Seq<char>>, id: Seq<char>)
    requires
        no_dup_ids(ids),
    ensures
        no_dup_ids(ids.remove_value(id)),
{
    ids.index_of_first_ensures(id);
    match ids.index_of_first(id) {
        Some(k) => {
            ids.remove_ensures(k);
            assert forall|i: int, j: int|
                0 <= i < j < ids.remove(k).len() implies ids.remove(k)[i] != ids.remove(k)[j] by {
                if i < k {
                    assert(ids.remove(k)[i] == ids[i]);
                } else {
                    assert(ids.remove(k)[i] == ids[i + 1]);
                }
                if j < k {
                    assert(ids.remove(k)[j] == ids[j]);
                } else {
                    assert(ids.remove(k)[j] == ids[j + 1]);
                }
            }
        }
        None => {}
    }
}

/// Inserting an identifier keeps the cache free of duplicates.
pub proof fn lemma_no_dup_insert(ids: Seq<Seq<char>>, id: Seq<char>)
    requires
        no_dup_ids(ids),
    ensures
        no_dup_ids(insert_id_seq(ids, id)),
{
    if !ids.contains(id) {
        assert forall|i: int, j: int|
            0 <= i < j < ids.push(id).len() implies ids.push(id)[i] != ids.push(id)[j] by {
            if j == ids.len() as int {
                assert(ids.contains(ids[i])) by {
                    assert(ids[i] == ids[i]);
                }
            }
        }
    }
}

} // verus!
