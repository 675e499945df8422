//! A small audio playlist player: the rules that turn a path into a list of
//! tracks, pick the next track, and decide what happens after each one.

pub mod player;
pub mod select;
pub mod tracks;

pub use player::{lemma_finished_track_shortens, Action, Playlist};
pub use select::{pick_music_file, select_track, Args};
pub use tracks::{get_all_music_files, is_music_extension, is_music_file, Listing};
