//! A terminal music browser's core: directory listings, a three-level
//! artist/album/song navigator, a playback queue and the key dispatcher
//! that drives them.
mod dir_state;
mod explorer;
mod input;
mod player;
mod text;

pub use dir_state::{DirEntry, DirState, Filter};
pub use explorer::{Explorer, State};
pub use input::{handle_input, play_album, Action, Event, Key};
pub use player::{Player, MAX_VOLUME};
pub use text::{
    chars_of, is_song, last_component, lex_le_str, matches_folded, matches_ignoring_case_str,
    status_text,
};
