//! Turning one event into changes of the navigator and the queue, and into
//! the one action that the caller is to carry out.
//!
//! Reading directories, opening audio files and driving the output are
//! left to the caller: an action names what to read or what to play, and
//! the caller hands the result back (`Explorer::select_next_dir`,
//! `play_album`) or reports a finished track as `Event::TrackDone`.
use vstd::prelude::*;
use vstd::string::*;

use crate::dir_state::{clone_paths, is_listing_of, paths, DirEntry, Filter, ListingView};
use crate::explorer::{Explorer, ExplorerView, State};
use crate::player::{clamp_volume, next_session, Player, QueueView};

verus! {

/// A key as the navigator sees it.
#[derive(Clone, Copy, Debug, PartialEq, Eq, Structural)]
pub enum Key {
    /// A printable character, or `'\n'` for Enter.
    Char(char),
    Backspace,
    /// Any other key.
    Other,
}

#[derive(Clone, Copy, Debug, PartialEq, Eq, Structural)]
pub enum Event {
    /// A key was pressed.
    Input(Key),
    /// Something outside changed: draw again.
    Redraw,
    /// A track queued in the given session finished.
    TrackDone(u64),
}

/// What the caller is to do after an event.
pub enum Action {
    /// Nothing to do but draw again.
    Continue,
    Quit,
    /// Read this directory and hand its entries to `Explorer::select_next_dir`.
    Load(String),
    /// Read this album directory and hand its entries to `play_album`.
    LoadAlbum(String),
    /// Replace the output with a new one that renders these tracks in
    /// order, each reporting its end with this session number.
    Play(u64, Vec<String>),
    /// Pause the output (`true`) or let it play (`false`).
    Pause(bool),
    /// Set the output's volume, in hundredths.
    Volume(u32),
    /// The next track of the queue has started.
    TrackChanged,
}

pub enum ActionView {
    Continue,
    Quit,
    Load(Seq<char>),
    LoadAlbum(Seq<char>),
    Play(nat, Seq<Seq<char>>),
    Pause(bool),
    Volume(nat),
    TrackChanged,
}

impl View for Action {
    type V = ActionView;

    open spec fn view(&self) -> ActionView {
        match self {
            Action::Continue => ActionView::Continue,
            Action::Quit => ActionView::Quit,
            Action::Load(p) => ActionView::Load(p@),
            Action::LoadAlbum(p) => ActionView::LoadAlbum(p@),
            Action::Play(s, t) => ActionView::Play(*s as nat, paths(t@)),
            Action::Pause(b) => ActionView::Pause(*b),
            Action::Volume(v) => ActionView::Volume(*v as nat),
            Action::TrackChanged => ActionView::TrackChanged,
        }
    }
}

/// The navigator, the queue, the search text and the action after an
/// event.
pub struct Step {
    pub explorer: ExplorerView,
    pub player: QueueView,
    pub search: Seq<char>,
    pub action: ActionView,
}

pub open spec fn step(ex: ExplorerView, pl: QueueView, search: Seq<char>, action: ActionView) -> Step {
    Step { explorer: ex, player: pl, search, action }
}

/// A new session on the queue's own tracks from `start`.
pub open spec fn restart(ex: ExplorerView, pl: QueueView, search: Seq<char>, start: nat) -> Step {
    step(
        ex,
        pl.play(start, pl.playing),
        search,
        ActionView::Play(
            next_session(pl.session),
            pl.playing.subrange(start as int, pl.playing.len() as int),
        ),
    )
}

/// A key typed while a search is being entered (`search` is not empty; it
/// starts with the `/` that opened it). Characters extend it and select the
/// first match of what follows the `/`; Enter or any key but Backspace
/// closes it.
pub open spec fn search_key(k: Key, ex: ExplorerView, pl: QueueView, search: Seq<char>) -> Step {
    match k {
        Key::Char(c) => if c == '\n' {
            step(ex, pl, Seq::empty(), ActionView::Continue)
        } else {
            let s = search.push(c);
            step(ex.searched(s.drop_first()), pl, s, ActionView::Continue)
        },
        Key::Backspace => step(ex, pl, search.drop_last(), ActionView::Continue),
        Key::Other => step(ex, pl, Seq::empty(), ActionView::Continue),
    }
}

/// Enter: drill down from artists, load an album to play it whole, or
/// play the selected song alone.
pub open spec fn enter_key(ex: ExplorerView, pl: QueueView, search: Seq<char>) -> Step {
    match ex.state {
        State::Artists => descend_key(ex, pl, search),
        State::Albums => if ex.can_descend() {
            step(ex, pl, search, ActionView::LoadAlbum(ex.selected()))
        } else {
            step(ex, pl, search, ActionView::Continue)
        },
        State::Songs => if ex.current().entries.len() > 0 {
            step(
                ex,
                pl.play(0, seq![ex.selected()]),
                search,
                ActionView::Play(next_session(pl.session), seq![ex.selected()]),
            )
        } else {
            step(ex, pl, search, ActionView::Continue)
        },
    }
}

/// `l`: ask for the selected directory to be read, or, where there is no
/// drill down, only bring the drawn cursor to the selection.
pub open spec fn descend_key(ex: ExplorerView, pl: QueueView, search: Seq<char>) -> Step {
    if ex.can_descend() {
        step(ex, pl, search, ActionView::Load(ex.selected()))
    } else {
        step(ex.synced(), pl, search, ActionView::Continue)
    }
}

/// A key typed outside a search.
pub open spec fn command_key(c: char, ex: ExplorerView, pl: QueueView, search: Seq<char>) -> Step {
    let l = ex.current();
    if c == 'q' {
        step(ex, pl, search, ActionView::Quit)
    } else if c == 'j' {
        step(ex.moved(l.next()), pl, search, ActionView::Continue)
    } else if c == 'k' {
        step(ex.moved(l.previous()), pl, search, ActionView::Continue)
    } else if c == 'h' {
        step(ex.ascended(), pl, search, ActionView::Continue)
    } else if c == 'l' {
        descend_key(ex, pl, search)
    } else if c == 'g' {
        step(ex.moved(l.with_index(0)), pl, search, ActionView::Continue)
    } else if c == 'G' {
        step(ex.moved(l.with_index((l.entries.len() - 1) as nat)), pl, search, ActionView::Continue)
    } else if c == '\n' {
        enter_key(ex, pl, search)
    } else if c == 'p' {
        step(ex, QueueView { paused: !pl.paused, ..pl }, search, ActionView::Pause(!pl.paused))
    } else if c == '-' || c == '+' {
        let v = clamp_volume(if c == '-' { pl.volume - 1 } else { pl.volume + 1int });
        step(ex, QueueView { volume: v, ..pl }, search, ActionView::Volume(v))
    } else if c == 'b' {
        if pl.index() > 0 {
            restart(ex, pl, search, (pl.index() - 1) as nat)
        } else {
            step(ex, pl, search, ActionView::Continue)
        }
    } else if c == 'w' {
        if pl.index() + 1 < pl.playing.len() {
            restart(ex, pl, search, (pl.index() + 1) as nat)
        } else {
            step(ex, pl, search, ActionView::Continue)
        }
    } else if c == '/' {
        step(ex, pl, search.push('/'), ActionView::Continue)
    } else {
        step(ex, pl, search, ActionView::Continue)
    }
}

/// What an event does.
pub open spec fn dispatch(e: Event, ex: ExplorerView, pl: QueueView, search: Seq<char>) -> Step {
    match e {
        Event::Redraw => step(ex, pl, search, ActionView::Continue),
        Event::TrackDone(s) => step(
            ex,
            pl.finish(s as nat),
            search,
            if s as nat == pl.session && pl.remaining > 0 {
                ActionView::TrackChanged
            } else {
                ActionView::Continue
            },
        ),
        Event::Input(k) => if search.len() > 0 {
            search_key(k, ex, pl, search)
        } else {
            match k {
                Key::Char(c) => command_key(c, ex, pl, search),
                _ => step(ex, pl, search, ActionView::Continue),
            }
        },
    }
}

/// Relies on `String::push`: the character is appended at the end.
#[verifier::external_body]
fn push_char(s: &mut String, c: char)
    ensures
        final(s)@ == old(s)@.push(c),
{
    s.push(c)
}

/// Relies on `String::pop`: the last character, if there is one, is
/// removed.
#[verifier::external_body]
fn pop_char(s: &mut String)
    ensures
        old(s)@.len() > 0 ==> final(s)@ == old(s)@.drop_last(),
        old(s)@.len() == 0 ==> final(s)@ == old(s)@,
{
    s.pop();
}

/// Starts a new session on the queue's own tracks from `start`.
fn replay_from(player: &mut Player, start: usize) -> (r: Action)
    requires
        old(player)@.wf(),
        start <= old(player)@.playing.len(),
    ensures
        final(player)@.wf(),
        final(player)@ == old(player)@.play(start as nat, old(player)@.playing),
        r@ == ActionView::Play(
            next_session(old(player)@.session),
            old(player)@.playing.subrange(start as int, old(player)@.playing.len() as int),
        ),
{
    let dir = clone_paths(player.playing());
    let tracks = player.play_songs(start, dir);
    Action::Play(player.session(), tracks)
}

/// Carries out one event on the navigator, the queue and the search text,
/// and says what the caller is to do next.
pub fn handle_input(
    event: Event,
    explorer: &mut Explorer,
    player: &mut Player,
    search: &mut String,
) -> (r: Action)
    requires
        old(explorer)@.wf(),
        old(player)@.wf(),
    ensures
        final(explorer)@.wf(),
        final(player)@.wf(),
        (step(final(explorer)@, final(player)@, final(search)@, r@)) == dispatch(
            event,
            old(explorer)@,
            old(player)@,
            old(search)@,
        ),
{
    let key = match event {
        Event::Input(k) => k,
        Event::Redraw => {
            return Action::Continue;
        },
        Event::TrackDone(s) => {
            if player.track_finished(s) {
                return Action::TrackChanged;
            } else {
                return Action::Continue;
            }
        },
    };
    if !search.as_str().is_empty() {
        match key {
            Key::Char(c) => {
                if c == '\n' {
                    *search = String::new();
                } else {
                    push_char(search, c);
                    let s = search.as_str();
                    explorer.search(s.substring_char(1, s.unicode_len()));
                    assert(search@.subrange(1, search@.len() as int) =~= search@.drop_first());
                }
            },
            Key::Backspace => {
                pop_char(search);
            },
            Key::Other => {
                *search = String::new();
            },
        }
        return Action::Continue;
    }
    let c = match key {
        Key::Char(c) => c,
        _ => {
            return Action::Continue;
        },
    };
    if c == 'q' {
        Action::Quit
    } else if c == 'j' {
        explorer.select_next();
        Action::Continue
    } else if c == 'k' {
        explorer.select_previous();
        Action::Continue
    } else if c == 'h' {
        explorer.select_previous_dir();
        Action::Continue
    } else if c == 'l' {
        descend(explorer)
    } else if c == 'g' {
        explorer.top();
        Action::Continue
    } else if c == 'G' {
        explorer.bottom();
        Action::Continue
    } else if c == '\n' {
        match explorer.state() {
            State::Artists => descend(explorer),
            State::Albums => {
                match explorer.next_dir_path() {
                    Some(p) => Action::LoadAlbum(p),
                    None => Action::Continue,
                }
            },
            State::Songs => {
                if explorer.selected_dir().entries() == 0 {
                    Action::Continue
                } else {
                    let p = explorer.selected().clone();
                    let tracks = player.play_song(p);
                    Action::Play(player.session(), tracks)
                }
            },
        }
    } else if c == 'p' {
        Action::Pause(player.toggle_pause())
    } else if c == '-' {
        player.set_volume(player.volume() as i64 - 1);
        Action::Volume(player.volume())
    } else if c == '+' {
        player.set_volume(player.volume() as i64 + 1);
        Action::Volume(player.volume())
    } else if c == 'b' {
        let index = player.index();
        if index > 0 {
            replay_from(player, index - 1)
        } else {
            Action::Continue
        }
    } else if c == 'w' {
        let index = player.index();
        if index < player.playing().len() && player.playing().len() - index > 1 {
            replay_from(player, index + 1)
        } else {
            Action::Continue
        }
    } else if c == '/' {
        push_char(search, '/');
        Action::Continue
    } else {
        Action::Continue
    }
}

/// `l`, or Enter on the artists: ask for the selected directory, or only
/// bring the drawn cursor to the selection where there is no drill down.
fn descend(explorer: &mut Explorer) -> (r: Action)
    requires
        old(explorer)@.wf(),
    ensures
        final(explorer)@.wf(),
        old(explorer)@.can_descend() ==> final(explorer)@ == old(explorer)@ && r@
            == ActionView::Load(old(explorer)@.selected()),
        !old(explorer)@.can_descend() ==> final(explorer)@ == old(explorer)@.synced() && r@
            == ActionView::Continue,
{
    match explorer.next_dir_path() {
        Some(p) => Action::Load(p),
        None => {
            explorer.update_selection();
            Action::Continue
        },
    }
}

/// Enter on an album, once its directory has been read into `entries`:
/// its songs are loaded into the level below, the whole album is queued
/// from its first song, and the albums stay shown. Where the albums are not
/// shown or none is selected, nothing changes.
pub fn play_album(explorer: &mut Explorer, player: &mut Player, entries: Vec<DirEntry>) -> (r:
    Action)
    requires
        old(explorer)@.wf(),
        old(player)@.wf(),
    ensures
        final(explorer)@.wf(),
        final(player)@.wf(),
        old(explorer)@.state == State::Albums && old(explorer)@.can_descend() ==> exists|
            l: ListingView,
        |
            #![trigger old(explorer)@.descended(l)]
            {
                &&& is_listing_of(l, entries@, Filter::Songs)
                &&& final(explorer)@ == old(explorer)@.descended(l).ascended()
                &&& final(player)@ == old(player)@.play(0, l.entries)
                &&& r@ == ActionView::Play(next_session(old(player)@.session), l.entries)
            },
        !(old(explorer)@.state == State::Albums && old(explorer)@.can_descend()) ==> {
            &&& final(explorer)@ == old(explorer)@
            &&& final(player)@ == old(player)@
            &&& r@ == ActionView::Continue
        },
{
    if explorer.state() != State::Albums || explorer.selected_dir().entries() == 0 {
        return Action::Continue;
    }
    let ghost ex0 = explorer@;
    let ghost es = entries@;
    explorer.select_next_dir(entries);
    let ghost l = explorer@.songs;
    proof {
        let l2 = choose|l2: ListingView|
            #![trigger ex0.descended(l2)]
            is_listing_of(l2, es, Filter::Songs) && explorer@ == ex0.descended(l2);
        assert(l2 == l);
    }
    let dir = clone_paths(explorer.selected_dir().dir());
    let ghost dv = paths(dir@);
    let tracks = player.play_songs(0, dir);
    assert(dv.subrange(0, dv.len() as int) =~= dv);
    explorer.select_previous_dir();
    Action::Play(player.session(), tracks)
}

} // verus!
