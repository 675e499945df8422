//! Which paths count as playable tracks.

use vstd::prelude::*;

verus! {

/// The extension of a path as `std::path::Path::extension` reads it: the text
/// after the final `.` of the path's last component, if there is one.
pub uninterp spec fn extension_of(path: Seq<char>) -> Option<Seq<char>>;

/// The extensions that are played, matched case-sensitively.
pub open spec fn music_extension(ext: Seq<char>) -> bool {
    ext == seq!['m', 'p', '3'] || ext == seq!['w', 'a', 'v'] || ext == seq!['o', 'g', 'g']
}

/// A path is a track when it has an extension and that extension is played.
pub open spec fn is_music_path(path: Seq<char>) -> bool {
    match extension_of(path) {
        Some(ext) => music_extension(ext),
        None => false,
    }
}

/// Relies on `std::path::Path::extension`: the extension of `path`, which is a
/// slice of a UTF-8 string and so converts to a `String` as it is.
#[verifier::external_body]
fn path_extension(path: &str) -> (r: Option<String>)
    ensures
        match r {
            Some(ext) => extension_of(path@) == Some(ext@),
            None => extension_of(path@) is None,
        },
{
    match std::path::Path::new(path).extension() {
        Some(ext) => ext.to_str().map(String::from),
        None => None,
    }
}

/// Whether an extension (without its dot) is one of `mp3`, `wav`, `ogg`.
pub fn is_music_extension(ext: &str) -> (r: bool)
    ensures
        r == music_extension(ext@),
{
    let e = ext.to_string();
    let mp3 = "mp3".to_string();
    let wav = "wav".to_string();
    let ogg = "ogg".to_string();
    proof {
        reveal_strlit("mp3");
        reveal_strlit("wav");
        reveal_strlit("ogg");
        assert("mp3"@ =~= seq!['m', 'p', '3']);
        assert("wav"@ =~= seq!['w', 'a', 'v']);
        assert("ogg"@ =~= seq!['o', 'g', 'g']);
    }
    e == mp3 || e == wav || e == ogg
}

/// Whether `path` names a track: its extension is one of `mp3`, `wav`, `ogg`.
pub fn is_music_file(path: &str) -> (r: bool)
    ensures
        r == is_music_path(path@),
{
    match path_extension(path) {
        Some(ext) => is_music_extension(ext.as_str()),
        None => false,
    }
}

/// What the player was pointed at: a directory, with the paths of its direct
/// children in the order the file system lists them, or a single file.
pub enum Listing {
    Directory(Vec<String>),
    File(String),
}

/// The paths of a list of strings.
pub open spec fn paths(v: Seq<String>) -> Seq<Seq<char>> {
    v.map_values(|s: String| s@)
}

/// The tracks among `entries`, in their order.
pub open spec fn music_paths(entries: Seq<Seq<char>>) -> Seq<Seq<char>> {
    entries.filter(|p: Seq<char>| is_music_path(p))
}

/// The tracks that a listing yields: the qualifying children of a directory,
/// in listing order, or the file itself if it qualifies.
pub open spec fn listing_tracks(target: Listing) -> Seq<Seq<char>> {
    match target {
        Listing::Directory(children) => music_paths(paths(children@)),
        Listing::File(file) => if is_music_path(file@) {
            seq![file@]
        } else {
            Seq::empty()
        },
    }
}

/// The tracks that `target` yields. Subdirectories of a directory are listed
/// like any other child and are not entered.
pub fn get_all_music_files(target: Listing) -> (r: Vec<String>)
    ensures
        paths(r@) == listing_tracks(target),
{
    match target {
        Listing::Directory(children) => {
            let mut files: Vec<String> = Vec::new();
            let mut i: usize = 0;
            while i < children.len()
                invariant
                    i <= children@.len(),
                    paths(files@) == music_paths(paths(children@).subrange(0, i as int)),
                decreases children@.len() - i,
            {
                let entry = &children[i];
                let keep = is_music_file(entry.as_str());
                proof {
                    let s = paths(children@);
                    let before = s.subrange(0, i as int);
                    let after = s.subrange(0, i + 1);
                    assert(after.drop_last() =~= before);
                    assert(after.last() == entry@);
                    reveal(Seq::filter);
                }
                if keep {
                    files.push(entry.clone());
                }
                proof {
                    assert(paths(files@) =~= music_paths(paths(children@).subrange(0, i + 1)));
                }
                i = i + 1;
            }
            assert(paths(children@).subrange(0, children@.len() as int) =~= paths(children@));
            files
        },
        Listing::File(file) => {
            let mut files: Vec<String> = Vec::new();
            if is_music_file(file.as_str()) {
                files.push(file);
            }
            assert(paths(files@) =~= listing_tracks(Listing::File(file)));
            files
        },
    }
}

} // verus!
