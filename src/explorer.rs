//! The three-level navigator: artists, the albums of the selected artist,
//! the songs of the selected album.
//!
//! Going down loads the level below from the entries read from the
//! selected directory; going up only changes the level, so the level left
//! keeps its listing until the next time it is loaded.
use vstd::prelude::*;

use crate::dir_state::{is_listing_of, DirEntry, DirState, Filter, ListingView};

verus! {

/// The level the navigator shows.
#[derive(Clone, Copy, Debug, PartialEq, Eq, Structural)]
pub enum State {
    Artists,
    Albums,
    Songs,
}

pub struct ExplorerView {
    pub artists: ListingView,
    pub albums: ListingView,
    pub songs: ListingView,
    pub state: State,
    /// The highlighted row of the list that is drawn.
    pub cursor: Option<nat>,
}

impl ExplorerView {
    /// Every listing is well formed, and a level below the first is shown
    /// only once an entry above it could be drilled into.
    pub open spec fn wf(self) -> bool {
        &&& self.artists.wf()
        &&& self.albums.wf()
        &&& self.songs.wf()
        &&& self.state != State::Artists ==> self.artists.entries.len() > 0
        &&& self.state == State::Songs ==> self.albums.entries.len() > 0
    }

    /// The listing of the level shown.
    pub open spec fn current(self) -> ListingView {
        match self.state {
            State::Artists => self.artists,
            State::Albums => self.albums,
            State::Songs => self.songs,
        }
    }

    /// The path of the entry selected in the level shown.
    pub open spec fn selected(self) -> Seq<char> {
        self.current().entries[self.current().index as int]
    }

    /// The same navigator with `l` as the listing of the level shown.
    pub open spec fn with_current(self, l: ListingView) -> ExplorerView {
        match self.state {
            State::Artists => ExplorerView { artists: l, ..self },
            State::Albums => ExplorerView { albums: l, ..self },
            State::Songs => ExplorerView { songs: l, ..self },
        }
    }

    /// The drawn cursor put on the selection of the level shown.
    pub open spec fn synced(self) -> ExplorerView {
        ExplorerView { cursor: Some(self.current().index), ..self }
    }

    /// The level shown with its listing replaced by `l`, the drawn cursor on
    /// its selection; nothing moves in an empty
    /// level.
    pub open spec fn moved(self, l: ListingView) -> ExplorerView {
        if self.current().entries.len() == 0 {
            self
        } else {
            self.with_current(l).synced()
        }
    }

    /// A drill down is possible: the level has a level below it and an
    /// entry selected.
    pub open spec fn can_descend(self) -> bool {
        self.state != State::Songs && self.current().entries.len() > 0
    }

    /// The level one up, with the cursor on its selection.
    pub open spec fn ascended(self) -> ExplorerView {
        match self.state {
            State::Artists => self.synced(),
            State::Albums => ExplorerView { state: State::Artists, ..self }.synced(),
            State::Songs => ExplorerView { state: State::Albums, ..self }.synced(),
        }
    }

    /// After a drill down that loaded `l`: the level below holds `l` and is
    /// shown, with the cursor on its selection.
    pub open spec fn descended(self, l: ListingView) -> ExplorerView {
        match self.state {
            State::Artists => ExplorerView { albums: l, state: State::Albums, ..self }.synced(),
            State::Albums => ExplorerView { songs: l, state: State::Songs, ..self }.synced(),
            State::Songs => self.synced(),
        }
    }

    /// After a search for `needle`: the first entry of the level shown
    /// whose name contains it is selected; nothing moves where none does.
    pub open spec fn searched(self, needle: Seq<char>) -> ExplorerView {
        if self.current().has_match(needle) {
            let i = choose|i: int| self.current().is_first_match(needle, i);
            self.moved(self.current().with_index(i as nat))
        } else {
            self
        }
    }

    /// The filter of the level below the one shown.
    pub open spec fn child_filter(self) -> Filter {
        if self.state == State::Artists {
            Filter::Dirs
        } else {
            Filter::Songs
        }
    }
}

pub struct Explorer {
    artists: DirState,
    albums: DirState,
    songs: DirState,
    state: State,
    list_state: Option<usize>,
}

impl View for Explorer {
    type V = ExplorerView;

    closed spec fn view(&self) -> ExplorerView {
        ExplorerView {
            artists: self.artists@,
            albums: self.albums@,
            songs: self.songs@,
            state: self.state,
            cursor: match self.list_state {
                Some(i) => Some(i as nat),
                None => None,
            },
        }
    }
}

impl Explorer {
    /// A navigator on the library whose top directory holds `root`: the
    /// artists are its sub-directories, and the first of them is selected.
    pub fn new(root: Vec<DirEntry>) -> (r: Explorer)
        ensures
            r@.wf(),
            is_listing_of(r@.artists, root@, Filter::Dirs),
            r@.albums.entries.len() == 0,
            r@.songs.entries.len() == 0,
            r@.state == State::Artists,
            r@.cursor == Some(0nat),
    {
        Explorer {
            artists: DirState::read_dir(root, Filter::Dirs),
            albums: DirState::default(),
            songs: DirState::default(),
            state: State::Artists,
            list_state: Some(0),
        }
    }

    /// The listing of the level shown.
    pub fn selected_dir(&self) -> (r: &DirState)
        ensures
            r@ == self@.current(),
    {
        match self.state {
            State::Artists => &self.artists,
            State::Albums => &self.albums,
            State::Songs => &self.songs,
        }
    }

    fn selected_dir_mut(&mut self) -> (r: &mut DirState)
        ensures
            r@ == old(self)@.current(),
            final(self)@ == old(self)@.with_current(final(r)@),
    {
        match self.state {
            State::Artists => &mut self.artists,
            State::Albums => &mut self.albums,
            State::Songs => &mut self.songs,
        }
    }

    /// The path of the entry selected in the level shown.
    pub fn selected(&self) -> (r: &String)
        requires
            self@.wf(),
            self@.current().entries.len() > 0,
        ensures
            r@ == self@.selected(),
    {
        self.selected_dir().selected()
    }

    /// Moves down one entry in the level shown, round from the last to the
    /// first.
    pub fn select_next(&mut self)
        requires
            old(self)@.wf(),
        ensures
            final(self)@.wf(),
            final(self)@ == old(self)@.moved(old(self)@.current().next()),
    {
        if self.selected_dir().entries() == 0 {
            return;
        }
        let index = self.selected_dir_mut().select_next();
        self.list_state = Some(index);
    }

    /// Moves up one entry in the level shown, round from the first to the
    /// last.
    pub fn select_previous(&mut self)
        requires
            old(self)@.wf(),
        ensures
            final(self)@.wf(),
            final(self)@ == old(self)@.moved(old(self)@.current().previous()),
    {
        if self.selected_dir().entries() == 0 {
            return;
        }
        let index = self.selected_dir_mut().select_previous();
        self.list_state = Some(index);
    }

    /// The directory to read for a drill down: the selected entry, when the
    /// level shown has one and a level below it.
    pub fn next_dir_path(&self) -> (r: Option<String>)
        requires
            self@.wf(),
        ensures
            self@.can_descend() ==> (r matches Some(p) && p@ == self@.selected()),
            !self@.can_descend() ==> r is None,
    {
        if self.state == State::Songs || self.selected_dir().entries() == 0 {
            None
        } else {
            Some(self.selected().clone())
        }
    }

    /// Drills down into the selected entry, given the entries read from it:
    /// the level below is loaded from them and shown. Where no drill down
    /// is possible, only the drawn cursor is put on the selection.
    pub fn select_next_dir(&mut self, entries: Vec<DirEntry>)
        requires
            old(self)@.wf(),
        ensures
            final(self)@.wf(),
            old(self)@.can_descend() ==> exists|l: ListingView|
                #![trigger old(self)@.descended(l)]
                is_listing_of(l, entries@, old(self)@.child_filter()) && final(self)@
                    == old(self)@.descended(l),
            !old(self)@.can_descend() ==> final(self)@ == old(self)@.synced(),
    {
        let ghost before = self@;
        let ghost entries_view = entries@;
        if self.selected_dir().entries() > 0 {
            match self.state {
                State::Artists => {
                    self.albums = DirState::read_dir(entries, Filter::Dirs);
                    self.state = State::Albums;
                    self.update_selection();
                    assert(self@ == before.descended(self.albums@));
                    assert(is_listing_of(self.albums@, entries_view, before.child_filter()));
                    return;
                },
                State::Albums => {
                    self.songs = DirState::read_dir(entries, Filter::Songs);
                    self.state = State::Songs;
                    self.update_selection();
                    assert(self@ == before.descended(self.songs@));
                    assert(is_listing_of(self.songs@, entries_view, before.child_filter()));
                    return;
                },
                State::Songs => {},
            }
        }
        self.update_selection();
    }

    /// Goes up one level; the listings stay as they are.
    pub fn select_previous_dir(&mut self)
        requires
            old(self)@.wf(),
        ensures
            final(self)@.wf(),
            final(self)@ == old(self)@.ascended(),
    {
        match self.state {
            State::Albums => {
                self.state = State::Artists;
            },
            State::Songs => {
                self.state = State::Albums;
            },
            State::Artists => {},
        }
        self.update_selection()
    }

    /// The title of the level shown: `Music` at the top, else the name of
    /// the entry it was drilled from.
    pub fn current_dir_name(&self) -> (r: Option<String>)
        requires
            self@.wf(),
        ensures
            self@.state == State::Artists ==> (r matches Some(s) && s@ == "Music"@),
            self@.state == State::Albums ==> (r matches Some(s) && s@ == crate::text::file_name(
                self@.artists.entries[self@.artists.index as int],
            )),
            self@.state == State::Songs ==> (r matches Some(s) && s@ == crate::text::file_name(
                self@.albums.entries[self@.albums.index as int],
            )),
    {
        match self.state {
            State::Artists => Some("Music".to_owned()),
            State::Albums => self.artists.selected_name(),
            State::Songs => self.albums.selected_name(),
        }
    }

    /// Puts the drawn cursor on the selection of the level shown.
    pub fn update_selection(&mut self)
        requires
            old(self)@.wf(),
        ensures
            final(self)@.wf(),
            final(self)@ == old(self)@.synced(),
    {
        let index = self.selected_dir().index();
        self.list_state = Some(index);
    }

    /// Selects the first entry of the level shown; an empty level stays as
    /// it is.
    pub fn top(&mut self)
        requires
            old(self)@.wf(),
        ensures
            final(self)@.wf(),
            final(self)@ == old(self)@.moved(old(self)@.current().with_index(0)),
    {
        if self.selected_dir().entries() == 0 {
            return;
        }
        let index = self.selected_dir_mut().select(0);
        self.list_state = index;
    }

    /// Selects the last entry of the level shown; an empty level stays as
    /// it is.
    pub fn bottom(&mut self)
        requires
            old(self)@.wf(),
        ensures
            final(self)@.wf(),
            final(self)@ == old(self)@.moved(
                old(self)@.current().with_index((old(self)@.current().entries.len() - 1) as nat),
            ),
    {
        let len = self.selected_dir().entries();
        if len > 0 {
            let index = self.selected_dir_mut().select(len - 1);
            self.list_state = index;
        }
    }

    /// Selects the first entry of the level shown whose name contains `s`,
    /// ignoring case; nothing moves where none does.
    pub fn search(&mut self, s: &str)
        requires
            old(self)@.wf(),
        ensures
            final(self)@.wf(),
            final(self)@ == old(self)@.searched(s@),
    {
        if let Some(i) = self.selected_dir().find(s) {
            proof {
                let l = self@.current();
                let c = choose|c: int| l.is_first_match(s@, c);
                assert(l.is_first_match(s@, c));
                if c < i {
                    assert(!l.is_match(s@, c));
                }
                if c > i {
                    assert(!l.is_match(s@, i as int));
                }
                assert(c == i);
            }
            self.selected_dir_mut().select(i);
            self.list_state = Some(i);
        }
    }

    /// The level shown.
    pub fn state(&self) -> (r: State)
        ensures
            r == self@.state,
    {
        self.state
    }

    /// The highlighted row of the list that is drawn.
    pub fn list_state(&self) -> (r: Option<usize>)
        ensures
            r matches Some(i) ==> self@.cursor == Some(i as nat),
            r is None ==> self@.cursor is None,
    {
        self.list_state
    }
}

} // verus!
