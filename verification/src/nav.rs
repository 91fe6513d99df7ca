use vstd::prelude::*;

verus! {

/// Which of the three top-level screens is shown.
///
/// The screens form a fixed ring: Library -> Search -> LikedSongs -> Library.
#[derive(Clone, Copy, Debug, PartialEq, Eq, Structural)]
pub enum Screen {
    Library,
    Search,
    LikedSongs,
}

/// Whether key presses edit the search buffer or act as commands.
#[derive(Clone, Copy, Debug, PartialEq, Eq, Structural)]
pub enum InputMode {
    Normal,
    Editing,
}

/// Sub-focus within the Library screen: Left lists playlists, Right lists tracks.
#[derive(Clone, Copy, Debug, PartialEq, Eq, Structural)]
pub enum Panel {
    Left,
    Right,
}

impl Screen {
    /// The screen that follows `self` in the ring.
    pub open spec fn spec_next(self) -> Screen {
        match self {
            Screen::Library => Screen::Search,
            Screen::Search => Screen::LikedSongs,
            Screen::LikedSongs => Screen::Library,
        }
    }

    /// The screen that precedes `self` in the ring.
    pub open spec fn spec_prev(self) -> Screen {
        match self {
            Screen::Library => Screen::LikedSongs,
            Screen::Search => Screen::Library,
            Screen::LikedSongs => Screen::Search,
        }
    }

    /// All screens, in ring order starting at Library.
    pub fn all() -> (r: Vec<Screen>)
        ensures
            r@ == seq![Screen::Library, Screen::Search, Screen::LikedSongs],
    {
        let r = vec![Screen::Library, Screen::Search, Screen::LikedSongs];
        proof {
            assert(r@ =~= seq![Screen::Library, Screen::Search, Screen::LikedSongs]);
        }
        r
    }

    /// Human-readable name of the screen, as shown in the tab bar.
    pub fn label(&self) -> (r: &'static str)
        ensures
            r@ == match self {
                Screen::Library => "Library"@,
                Screen::Search => "Search"@,
                Screen::LikedSongs => "Liked Songs"@,
            },
    {
        match self {
            Screen::Library => "Library",
            Screen::Search => "Search",
            Screen::LikedSongs => "Liked Songs",
        }
    }

    pub fn next(&self) -> (r: Screen)
        ensures
            r == self.spec_next(),
    {
        match self {
            Screen::Library => Screen::Search,
            Screen::Search => Screen::LikedSongs,
            Screen::LikedSongs => Screen::Library,
        }
    }

    pub fn prev(&self) -> (r: Screen)
        ensures
            r == self.spec_prev(),
    {
        match self {
            Screen::Library => Screen::LikedSongs,
            Screen::Search => Screen::Library,
            Screen::LikedSongs => Screen::Search,
        }
    }
}

/// The screen ring is a closed loop of length three: three steps forward,
/// or three steps back, return to the starting screen, and one step forward
/// undoes one step back.
pub proof fn lemma_screen_cycle(s: Screen)
    ensures
        s.spec_next().spec_next().spec_next() == s,
        s.spec_prev().spec_prev().spec_prev() == s,
        s.spec_next().spec_prev() == s,
        s.spec_prev().spec_next() == s,
{
}

} // verus!
