use bebop::{
    chars_of, is_song, last_component, lex_le_str, matches_folded, matches_ignoring_case_str,
    status_text, DirEntry, DirState, Filter,
};

fn dir(path: &str) -> DirEntry {
    DirEntry { path: path.to_string(), is_dir: true }
}

fn file(path: &str) -> DirEntry {
    DirEntry { path: path.to_string(), is_dir: false }
}

fn listing(names: &[&str]) -> DirState {
    DirState::read_dir(names.iter().map(|n| dir(&format!("/m/{}", n))).collect(), Filter::Dirs)
}

#[test]
fn last_component_takes_text_after_last_slash() {
    assert_eq!(last_component("/music/Miles/Kind of Blue/b.flac"), "b.flac");
    assert_eq!(last_component("plain"), "plain");
    assert_eq!(last_component("dir/"), "");
}

#[test]
fn chars_of_splits_characters() {
    assert_eq!(chars_of("añb"), vec!['a', 'ñ', 'b']);
}

#[test]
fn song_extensions_are_exact() {
    assert!(is_song("/a/b/x.wav"));
    assert!(is_song("/a/b/x.flac"));
    assert!(is_song("/a/b/x.mp3"));
    assert!(is_song("x.tar.mp3"));
    assert!(!is_song("/a/b/x.MP3"));
    assert!(!is_song("/a/b/x.ogg"));
    assert!(!is_song("/a/b/.mp3"));
    assert!(!is_song("/a/b/mp3"));
    assert!(!is_song("/a/b.mp3/cover"));
}

#[test]
fn lexicographic_order_by_code_point() {
    assert!(lex_le_str("abc", "abd"));
    assert!(!lex_le_str("abd", "abc"));
    assert!(lex_le_str("ab", "abc"));
    assert!(!lex_le_str("abc", "ab"));
    assert!(lex_le_str("Z", "a"));
    assert!(lex_le_str("same", "same"));
}

#[test]
fn substring_search_is_exact_on_characters() {
    assert!(matches_folded("xabcx", "abc"));
    assert!(!matches_folded("xabcx", "ABC"));
    assert!(matches_folded("anything", ""));
    assert!(!matches_folded("ab", "abc"));
}

#[test]
fn ignoring_case_lowers_both_sides() {
    assert!(matches_ignoring_case_str("xabcx", "ABC"));
    assert!(matches_ignoring_case_str("XABCX", "abc"));
    assert!(!matches_ignoring_case_str("xabx", "ABC"));
}

#[test]
fn status_text_has_three_lines() {
    let t = status_text("/music/Miles/Kind of Blue/b.flac").unwrap();
    assert_eq!(t, "b.flac\nMiles\n/music/Miles/Kind of Blue/cover.jpg\n");
    assert!(status_text("Kind of Blue/b.flac").is_none());
    assert!(status_text("b.flac").is_none());
}

#[test]
fn read_dir_filters_and_sorts() {
    let d = DirState::read_dir(
        vec![dir("/m/b"), file("/m/a.mp3"), dir("/m/a"), dir("/m/C")],
        Filter::Dirs,
    );
    assert_eq!(d.dir(), &vec!["/m/C".to_string(), "/m/a".to_string(), "/m/b".to_string()]);
    assert_eq!(d.index(), 0);
    assert_eq!(d.entries(), 3);
    assert_eq!(d.entry_strings(), vec!["C", "a", "b"]);
}

#[test]
fn read_dir_keeps_songs_only() {
    let d = DirState::read_dir(
        vec![file("/a/c.mp3"), file("/a/cover.jpg"), file("/a/a.flac"), dir("/a/b.wav")],
        Filter::Songs,
    );
    assert_eq!(d.entry_strings(), vec!["a.flac", "b.wav", "c.mp3"]);
}

#[test]
fn empty_listing() {
    let mut d = DirState::default();
    assert_eq!(d.entries(), 0);
    assert_eq!(d.selected_name(), None);
    assert_eq!(d.select(0), None);
    assert_eq!(d.find(""), None);
    let e = listing(&[]);
    assert_eq!(e.entries(), 0);
}

#[test]
fn select_next_wraps_and_cycles() {
    let mut d = listing(&["a", "b", "c"]);
    assert_eq!(d.select_next(), 1);
    assert_eq!(d.select_next(), 2);
    assert_eq!(d.select_next(), 0);
    d.select(1);
    for _ in 0..3 {
        d.select_next();
    }
    assert_eq!(d.index(), 1);
}

#[test]
fn select_previous_wraps_and_cycles() {
    let mut d = listing(&["a", "b", "c"]);
    assert_eq!(d.select_previous(), 2);
    assert_eq!(d.select_previous(), 1);
    for _ in 0..3 {
        d.select_previous();
    }
    assert_eq!(d.index(), 1);
}

#[test]
fn single_entry_stays_put() {
    let mut d = listing(&["only"]);
    assert_eq!(d.select_next(), 0);
    assert_eq!(d.select_previous(), 0);
}

#[test]
fn select_rejects_out_of_range() {
    let mut d = listing(&["a", "b"]);
    assert_eq!(d.select(1), Some(1));
    assert_eq!(d.select(2), None);
    assert_eq!(d.index(), 1);
    assert_eq!(d.selected(), "/m/b");
    assert_eq!(d.selected_name(), Some("b".to_string()));
}

#[test]
fn find_ignores_case() {
    let d = listing(&["other", "xabcx"]);
    assert_eq!(d.find("ABC"), Some(1));
    assert_eq!(d.find("zzz"), None);
}

#[test]
fn find_returns_first_match_in_listing_order() {
    let d = listing(&["Miles Davis", "Wisdom", "Coltrane"]);
    assert_eq!(d.entry_strings(), vec!["Coltrane", "Miles Davis", "Wisdom"]);
    assert_eq!(d.find("is"), Some(1));
    assert_eq!(d.find("WI"), Some(2));
    assert_eq!(d.find(""), Some(0));
}
