//! Choosing the next track to play.

use vstd::prelude::*;
use rand::Rng;

verus! {

/// How the player was asked to run.
pub struct Args {
    /// The file or directory to play.
    pub filename: String,
    /// Pick each track at random among those left.
    pub shuffle: bool,
    /// Keep each track in the list after it has played.
    pub repeat: bool,
    /// Print no status lines.
    pub quiet: bool,
}

/// Relies on `rand::Rng::gen_range` over `rand::thread_rng()`: a value drawn
/// from `0..len`, which it panics on when empty.
#[verifier::external_body]
fn random_index(len: usize) -> (r: usize)
    requires
        len > 0,
    ensures
        r < len,
{
    rand::thread_rng().gen_range(0..len)
}

/// The index that the next pick takes: `draw` when shuffling, else the first.
pub open spec fn pick_index(shuffle: bool, draw: int) -> int {
    if shuffle {
        draw
    } else {
        0
    }
}

/// The track that a pick takes from `music_files`, given the random `draw`
/// (which only matters when shuffling).
pub fn select_track(music_files: &Vec<String>, shuffle: bool, draw: usize) -> (r: String)
    requires
        music_files@.len() > 0,
        draw < music_files@.len(),
    ensures
        r@ == music_files@[pick_index(shuffle, draw as int)]@,
{
    if shuffle {
        music_files[draw].clone()
    } else {
        music_files[0].clone()
    }
}

/// The next track to play: a uniformly random one of `music_files` when
/// shuffling, else the first one.
pub fn pick_music_file(music_files: &Vec<String>, args: &Args) -> (r: String)
    requires
        music_files@.len() > 0,
    ensures
        exists|i: int| 0 <= i < music_files@.len() && r@ == #[trigger] music_files@[i]@,
        !args.shuffle ==> r@ == music_files@[0]@,
{
    let draw: usize = if args.shuffle {
        random_index(music_files.len())
    } else {
        0
    };
    let r = select_track(music_files, args.shuffle, draw);
    assert(r@ == music_files@[pick_index(args.shuffle, draw as int)]@);
    r
}

} // verus!
