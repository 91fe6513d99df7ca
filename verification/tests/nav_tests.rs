use crabify::nav::Screen;

#[test]
fn screen_ring_next() {
    assert_eq!(Screen::Library.next(), Screen::Search);
    assert_eq!(Screen::Search.next(), Screen::LikedSongs);
    assert_eq!(Screen::LikedSongs.next(), Screen::Library);
}

#[test]
fn screen_ring_prev() {
    assert_eq!(Screen::Library.prev(), Screen::LikedSongs);
    assert_eq!(Screen::Search.prev(), Screen::Library);
    assert_eq!(Screen::LikedSongs.prev(), Screen::Search);
}

#[test]
fn screen_cycle_is_closed_forward() {
    for s in [Screen::Library, Screen::Search, Screen::LikedSongs] {
        assert_eq!(s.next().next().next(), s);
    }
}

#[test]
fn screen_cycle_is_closed_backward() {
    for s in [Screen::Library, Screen::Search, Screen::LikedSongs] {
        assert_eq!(s.prev().prev().prev(), s);
    }
}

#[test]
fn screen_labels() {
    assert_eq!(Screen::Library.label(), "Library");
    assert_eq!(Screen::Search.label(), "Search");
    assert_eq!(Screen::LikedSongs.label(), "Liked Songs");
}

#[test]
fn screen_all_in_ring_order() {
    let all = Screen::all();
    assert_eq!(all.len(), 3);
    assert_eq!(all[0], Screen::Library);
    assert_eq!(all[1], Screen::Search);
    assert_eq!(all[2], Screen::LikedSongs);
}
