use bebop::{
    handle_input, play_album, Action, DirEntry, Event, Explorer, Key, Player, State, MAX_VOLUME,
};

fn dir(path: &str) -> DirEntry {
    DirEntry { path: path.to_string(), is_dir: true }
}

fn file(path: &str) -> DirEntry {
    DirEntry { path: path.to_string(), is_dir: false }
}

fn key(c: char) -> Event {
    Event::Input(Key::Char(c))
}

fn press(e: &mut Explorer, p: &mut Player, s: &mut String, c: char) -> Action {
    handle_input(key(c), e, p, s)
}

fn album_entries() -> Vec<DirEntry> {
    vec![
        file("/music/Miles/Kind of Blue/c.mp3"),
        file("/music/Miles/Kind of Blue/a.flac"),
        file("/music/Miles/Kind of Blue/cover.jpg"),
        file("/music/Miles/Kind of Blue/b.flac"),
    ]
}

/// A navigator on one artist with one album, shown at the albums level.
fn at_albums() -> (Explorer, Player, String) {
    let mut e = Explorer::new(vec![dir("/music/Miles")]);
    let mut p = Player::new(20);
    let mut s = String::new();
    match press(&mut e, &mut p, &mut s, 'l') {
        Action::Load(path) => assert_eq!(path, "/music/Miles"),
        _ => panic!("expected a directory to load"),
    }
    e.select_next_dir(vec![dir("/music/Miles/Kind of Blue")]);
    assert_eq!(e.state(), State::Albums);
    (e, p, s)
}

#[test]
fn new_lists_artist_directories() {
    let e = Explorer::new(vec![dir("/m/b"), file("/m/x.mp3"), dir("/m/a")]);
    assert_eq!(e.state(), State::Artists);
    assert_eq!(e.selected(), "/m/a");
    assert_eq!(e.list_state(), Some(0));
    assert_eq!(e.current_dir_name(), Some("Music".to_string()));
    assert_eq!(e.next_dir_path(), Some("/m/a".to_string()));
}

#[test]
fn drill_down_and_up_keeps_cached_listing() {
    let mut e = Explorer::new(vec![dir("/m/a"), dir("/m/b")]);
    e.select_next();
    e.select_next_dir(vec![dir("/m/b/y"), dir("/m/b/x")]);
    assert_eq!(e.state(), State::Albums);
    assert_eq!(e.selected_dir().entry_strings(), vec!["x", "y"]);
    assert_eq!(e.current_dir_name(), Some("b".to_string()));
    e.select_next();
    assert_eq!(e.list_state(), Some(1));
    e.select_previous_dir();
    assert_eq!(e.state(), State::Artists);
    assert_eq!(e.list_state(), Some(1));
    e.select_previous();
    e.select_previous_dir();
    assert_eq!(e.state(), State::Artists);
    // Going down again without a reload shows the previous albums.
    e.select_next_dir(vec![dir("/m/a/z")]);
    e.select_previous_dir();
    assert_eq!(e.state(), State::Artists);
}

#[test]
fn drill_up_does_not_reload() {
    let (mut e, mut p, mut s) = at_albums();
    press(&mut e, &mut p, &mut s, 'h');
    assert_eq!(e.state(), State::Artists);
    e.select_next_dir(vec![dir("/music/Miles/Kind of Blue")]);
    e.select_next_dir(album_entries());
    assert_eq!(e.state(), State::Songs);
    assert_eq!(e.current_dir_name(), Some("Kind of Blue".to_string()));
    press(&mut e, &mut p, &mut s, 'h');
    press(&mut e, &mut p, &mut s, 'h');
    assert_eq!(e.state(), State::Artists);
    press(&mut e, &mut p, &mut s, 'h');
    assert_eq!(e.state(), State::Artists);
}

#[test]
fn songs_level_has_no_level_below() {
    let (mut e, mut p, mut s) = at_albums();
    e.select_next_dir(album_entries());
    assert_eq!(e.state(), State::Songs);
    assert_eq!(e.next_dir_path(), None);
    assert!(matches!(press(&mut e, &mut p, &mut s, 'l'), Action::Continue));
    e.select_next_dir(vec![file("/x.mp3")]);
    assert_eq!(e.state(), State::Songs);
    assert_eq!(e.selected_dir().entries(), 3);
}

#[test]
fn top_and_bottom() {
    let mut e = Explorer::new(vec![dir("/m/a"), dir("/m/b"), dir("/m/c")]);
    e.bottom();
    assert_eq!(e.selected(), "/m/c");
    assert_eq!(e.list_state(), Some(2));
    e.top();
    assert_eq!(e.selected(), "/m/a");
    assert_eq!(e.list_state(), Some(0));
}

#[test]
fn empty_level_ignores_movement() {
    let mut e = Explorer::new(vec![file("/m/x.mp3")]);
    e.select_next();
    e.select_previous();
    e.top();
    e.bottom();
    assert_eq!(e.selected_dir().entries(), 0);
    assert_eq!(e.list_state(), Some(0));
    assert_eq!(e.next_dir_path(), None);
    let mut p = Player::new(20);
    let mut s = String::new();
    assert!(matches!(press(&mut e, &mut p, &mut s, '\n'), Action::Continue));
    assert!(matches!(press(&mut e, &mut p, &mut s, 'l'), Action::Continue));
}

#[test]
fn scenario_enter_on_song_queues_it_alone() {
    let (mut e, mut p, mut s) = at_albums();
    press(&mut e, &mut p, &mut s, 'l');
    e.select_next_dir(album_entries());
    assert_eq!(e.state(), State::Songs);
    press(&mut e, &mut p, &mut s, 'j');
    assert_eq!(e.selected(), "/music/Miles/Kind of Blue/b.flac");
    match press(&mut e, &mut p, &mut s, '\n') {
        Action::Play(session, tracks) => {
            assert_eq!(session, p.session());
            assert_eq!(tracks, vec!["/music/Miles/Kind of Blue/b.flac"]);
        }
        _ => panic!("expected playback"),
    }
    assert_eq!(p.playing(), &vec!["/music/Miles/Kind of Blue/b.flac".to_string()]);
    assert_eq!(p.index(), 0);
    assert_eq!(e.state(), State::Songs);
}

#[test]
fn scenario_enter_on_album_queues_it_whole() {
    let (mut e, mut p, mut s) = at_albums();
    let path = match press(&mut e, &mut p, &mut s, '\n') {
        Action::LoadAlbum(path) => path,
        _ => panic!("expected an album to load"),
    };
    assert_eq!(path, "/music/Miles/Kind of Blue");
    match play_album(&mut e, &mut p, album_entries()) {
        Action::Play(session, tracks) => {
            assert_eq!(session, p.session());
            assert_eq!(
                tracks,
                vec![
                    "/music/Miles/Kind of Blue/a.flac",
                    "/music/Miles/Kind of Blue/b.flac",
                    "/music/Miles/Kind of Blue/c.mp3",
                ]
            );
        }
        _ => panic!("expected playback"),
    }
    assert_eq!(p.playing().len(), 3);
    assert_eq!(p.remaining(), 3);
    assert_eq!(p.index(), 0);
    assert_eq!(p.current(), Some("/music/Miles/Kind of Blue/a.flac".to_string()));
    assert_eq!(e.state(), State::Albums);
    assert_eq!(e.selected_dir().entry_strings(), vec!["Kind of Blue"]);
    // The songs level keeps what was loaded.
    e.select_next_dir(vec![]);
    assert_eq!(e.selected_dir().entries(), 0);
}

#[test]
fn play_album_needs_albums_level() {
    let mut e = Explorer::new(vec![dir("/music/Miles")]);
    let mut p = Player::new(20);
    assert!(matches!(play_album(&mut e, &mut p, album_entries()), Action::Continue));
    assert_eq!(e.state(), State::Artists);
    assert_eq!(p.playing().len(), 0);
}

#[test]
fn scenario_search_selects_first_match() {
    let mut e = Explorer::new(vec![dir("/m/Miles Davis"), dir("/m/Wisdom"), dir("/m/Coltrane")]);
    let mut p = Player::new(20);
    let mut s = String::new();
    for c in "/is".chars() {
        assert!(matches!(press(&mut e, &mut p, &mut s, c), Action::Continue));
    }
    assert_eq!(s, "/is");
    // "Miles Davis" is the first name, in listing order, that holds "is".
    assert_eq!(e.selected(), "/m/Miles Davis");
    assert_eq!(e.list_state(), Some(1));
    assert_eq!(e.selected_dir().entry_strings(), vec!["Coltrane", "Miles Davis", "Wisdom"]);
    press(&mut e, &mut p, &mut s, '\n');
    assert_eq!(s, "");
    for c in "/WI".chars() {
        press(&mut e, &mut p, &mut s, c);
    }
    assert_eq!(e.selected(), "/m/Wisdom");
    assert_eq!(e.list_state(), Some(2));
    assert_eq!(e.state(), State::Artists);
}

#[test]
fn search_backspace_and_other_keys() {
    let mut e = Explorer::new(vec![dir("/m/a"), dir("/m/b")]);
    let mut p = Player::new(20);
    let mut s = String::new();
    press(&mut e, &mut p, &mut s, '/');
    press(&mut e, &mut p, &mut s, 'b');
    assert_eq!(e.selected(), "/m/b");
    handle_input(Event::Input(Key::Backspace), &mut e, &mut p, &mut s);
    assert_eq!(s, "/");
    // Commands are typed into the search, not carried out.
    assert!(matches!(press(&mut e, &mut p, &mut s, 'q'), Action::Continue));
    assert_eq!(s, "/q");
    handle_input(Event::Input(Key::Other), &mut e, &mut p, &mut s);
    assert_eq!(s, "");
    assert!(matches!(press(&mut e, &mut p, &mut s, 'q'), Action::Quit));
    press(&mut e, &mut p, &mut s, '/');
    handle_input(Event::Input(Key::Backspace), &mut e, &mut p, &mut s);
    assert_eq!(s, "");
}

#[test]
fn search_without_match_moves_nothing() {
    let mut e = Explorer::new(vec![dir("/m/a"), dir("/m/b")]);
    e.select_next();
    e.search("zzz");
    assert_eq!(e.selected(), "/m/b");
    e.search("A");
    assert_eq!(e.selected(), "/m/a");
    assert_eq!(e.list_state(), Some(0));
}

#[test]
fn keys_that_do_nothing() {
    let (mut e, mut p, mut s) = at_albums();
    assert!(matches!(press(&mut e, &mut p, &mut s, 'x'), Action::Continue));
    assert!(matches!(handle_input(Event::Redraw, &mut e, &mut p, &mut s), Action::Continue));
    assert!(matches!(
        handle_input(Event::Input(Key::Backspace), &mut e, &mut p, &mut s),
        Action::Continue
    ));
    assert_eq!(e.state(), State::Albums);
    assert_eq!(s, "");
}

#[test]
fn volume_keys_step_and_clamp() {
    let mut e = Explorer::new(vec![]);
    let mut p = Player::new(1);
    let mut s = String::new();
    assert!(matches!(press(&mut e, &mut p, &mut s, '-'), Action::Volume(0)));
    assert!(matches!(press(&mut e, &mut p, &mut s, '-'), Action::Volume(0)));
    assert!(matches!(press(&mut e, &mut p, &mut s, '+'), Action::Volume(1)));
    p.set_volume(MAX_VOLUME as i64);
    assert!(matches!(press(&mut e, &mut p, &mut s, '+'), Action::Volume(100)));
    assert_eq!(p.volume(), 100);
}

#[test]
fn pause_key_toggles() {
    let mut e = Explorer::new(vec![]);
    let mut p = Player::new(20);
    let mut s = String::new();
    assert!(matches!(press(&mut e, &mut p, &mut s, 'p'), Action::Pause(true)));
    assert!(p.is_paused());
    assert!(matches!(press(&mut e, &mut p, &mut s, 'p'), Action::Pause(false)));
    assert!(!p.is_paused());
}

#[test]
fn skip_keys_restart_the_queue() {
    let mut e = Explorer::new(vec![]);
    let mut p = Player::new(20);
    let mut s = String::new();
    let tracks: Vec<String> = vec!["/a/b/1.mp3".into(), "/a/b/2.mp3".into(), "/a/b/3.mp3".into()];
    p.play_songs(0, tracks);
    assert!(matches!(press(&mut e, &mut p, &mut s, 'b'), Action::Continue));
    match press(&mut e, &mut p, &mut s, 'w') {
        Action::Play(_, t) => assert_eq!(t, vec!["/a/b/2.mp3", "/a/b/3.mp3"]),
        _ => panic!("expected playback"),
    }
    assert_eq!(p.index(), 1);
    press(&mut e, &mut p, &mut s, 'w');
    assert_eq!(p.index(), 2);
    assert!(matches!(press(&mut e, &mut p, &mut s, 'w'), Action::Continue));
    match press(&mut e, &mut p, &mut s, 'b') {
        Action::Play(_, t) => assert_eq!(t, vec!["/a/b/2.mp3", "/a/b/3.mp3"]),
        _ => panic!("expected playback"),
    }
    assert_eq!(p.index(), 1);
    assert_eq!(p.playing().len(), 3);
}

#[test]
fn skip_keys_on_empty_queue() {
    let mut e = Explorer::new(vec![]);
    let mut p = Player::new(20);
    let mut s = String::new();
    assert!(matches!(press(&mut e, &mut p, &mut s, 'w'), Action::Continue));
    assert!(matches!(press(&mut e, &mut p, &mut s, 'b'), Action::Continue));
}

#[test]
fn completion_events_advance_current_session_only() {
    let mut e = Explorer::new(vec![]);
    let mut p = Player::new(20);
    let mut s = String::new();
    p.play_songs(0, vec!["/a/b/1.mp3".into(), "/a/b/2.mp3".into()]);
    let old = p.session();
    p.play_songs(0, vec!["/a/b/1.mp3".into(), "/a/b/2.mp3".into()]);
    let now = p.session();
    assert_ne!(old, now);
    assert!(matches!(handle_input(Event::TrackDone(old), &mut e, &mut p, &mut s), Action::Continue));
    assert_eq!(p.index(), 0);
    assert!(matches!(
        handle_input(Event::TrackDone(now), &mut e, &mut p, &mut s),
        Action::TrackChanged
    ));
    assert_eq!(p.index(), 1);
    assert_eq!(p.current(), Some("/a/b/2.mp3".to_string()));
}
