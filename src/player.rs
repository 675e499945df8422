//! The playback loop's decisions. The caller plays what it is told to play
//! and reports back when the track has finished.

use vstd::prelude::*;
use crate::select::{pick_music_file, Args};
use crate::tracks::paths;

verus! {

/// `s` without the first occurrence of `t`; `s` itself if `t` does not occur.
pub open spec fn remove_first(s: Seq<Seq<char>>, t: Seq<char>) -> Seq<Seq<char>>
    decreases s.len(),
{
    if s.len() == 0 {
        s
    } else if s[0] == t {
        s.drop_first()
    } else {
        seq![s[0]] + remove_first(s.drop_first(), t)
    }
}

/// Removing the first occurrence is removing at the first index that holds it.
proof fn lemma_remove_first_at(s: Seq<Seq<char>>, t: Seq<char>, i: int)
    requires
        0 <= i <= s.len(),
        i < s.len() ==> s[i] == t,
        forall|j: int| 0 <= j < i ==> s[j] != t,
    ensures
        remove_first(s, t) == if i < s.len() {
            s.remove(i)
        } else {
            s
        },
    decreases s.len(),
{
    if s.len() > 0 && i > 0 {
        let rest = s.drop_first();
        assert forall|j: int| 0 <= j < i - 1 implies rest[j] != t by {
            assert(rest[j] == s[j + 1]);
        }
        lemma_remove_first_at(rest, t, i - 1);
        if i < s.len() {
            assert(s.remove(i) =~= seq![s[0]] + rest.remove(i - 1));
        } else {
            assert(s =~= seq![s[0]] + rest);
        }
    } else if s.len() > 0 {
        assert(s.remove(0) =~= s.drop_first());
    }
}

/// Without repeat, each track that finishes and is in the list takes exactly
/// one entry out of it, so a list of n tracks is empty after n plays.
pub proof fn lemma_finished_track_shortens(s: Seq<Seq<char>>, t: Seq<char>)
    requires
        s.contains(t),
    ensures
        remove_first(s, t).len() == s.len() - 1,
    decreases s.len(),
{
    if s[0] != t {
        let i = choose|i: int| 0 <= i < s.len() && s[i] == t;
        assert(s.drop_first()[i - 1] == t);
        lemma_finished_track_shortens(s.drop_first(), t);
    }
}

/// The status line printed when a track starts.
pub open spec fn now_playing_line(track: Seq<char>) -> Seq<char> {
    "Now playing: "@ + track
}

/// The status line printed when the list has run out.
pub open spec fn playlist_over_line() -> Seq<char> {
    "Our playlist is now over!"@
}

/// A status line as it is shown under `quiet`: not at all when quiet.
pub open spec fn shown(quiet: bool, line: Seq<char>, status: Option<String>) -> bool {
    if quiet {
        status is None
    } else {
        status matches Some(s) && s@ == line
    }
}

/// What the player does next.
pub enum Action {
    /// Play `track` to its end, printing `status` first if there is one.
    Play { track: String, status: Option<String> },
    /// Print `status` if there is one, and stop.
    Stop { status: Option<String> },
}

/// The tracks still to play, in order.
pub struct Playlist {
    tracks: Vec<String>,
}

impl View for Playlist {
    type V = Seq<Seq<char>>;

    closed spec fn view(&self) -> Seq<Seq<char>> {
        paths(self.tracks@)
    }
}

impl Playlist {
    /// A playlist holding `tracks`, in their order.
    pub fn new(tracks: Vec<String>) -> (r: Playlist)
        ensures
            r@ == paths(tracks@),
    {
        Playlist { tracks }
    }

    /// The tracks still to play.
    pub fn tracks(&self) -> (r: &Vec<String>)
        ensures
            paths(r@) == self@,
    {
        &self.tracks
    }

    /// The number of tracks still to play.
    pub fn len(&self) -> (r: usize)
        ensures
            r == self@.len(),
    {
        self.tracks.len()
    }

    /// Whether no track is left to play.
    pub fn is_empty(&self) -> (r: bool)
        ensures
            r == (self@.len() == 0),
    {
        self.tracks.len() == 0
    }

    /// What to do next: stop once the list is empty, else play the track that
    /// `pick_music_file` picks. No status line is produced when quiet.
    pub fn next_action(&self, args: &Args) -> (r: Action)
        ensures
            self@.len() == 0 <==> r is Stop,
            r matches Action::Stop { status } ==> shown(args.quiet, playlist_over_line(), status),
            r matches Action::Play { track, status } ==> {
                &&& self@.contains(track@)
                &&& !args.shuffle ==> track@ == self@[0]
                &&& shown(args.quiet, now_playing_line(track@), status)
            },
    {
        if self.tracks.len() == 0 {
            let status = if args.quiet {
                None
            } else {
                Some("Our playlist is now over!".to_string())
            };
            Action::Stop { status }
        } else {
            let track = pick_music_file(&self.tracks, args);
            let ghost i = choose|i: int| 0 <= i < self.tracks@.len() && track@ == #[trigger] self.tracks@[i]@;
            assert(self@[i] == track@);
            let status = if args.quiet {
                None
            } else {
                Some("Now playing: ".to_string().concat(track.as_str()))
            };
            Action::Play { track, status }
        }
    }

    /// Records that `track` has played to its end: unless repeating, its
    /// first occurrence leaves the list.
    pub fn track_finished(&mut self, track: &String, args: &Args)
        ensures
            args.repeat ==> final(self)@ == old(self)@,
            !args.repeat ==> final(self)@ == remove_first(old(self)@, track@),
    {
        if args.repeat {
            return;
        }
        let mut i: usize = 0;
        while i < self.tracks.len() && self.tracks[i] != *track
            invariant
                i <= self.tracks@.len(),
                forall|j: int| 0 <= j < i ==> self@[j] != track@,
            decreases self.tracks@.len() - i,
        {
            i = i + 1;
        }
        proof {
            lemma_remove_first_at(self@, track@, i as int);
        }
        if i < self.tracks.len() {
            let ghost before = self.tracks@;
            self.tracks.remove(i);
            assert(paths(self.tracks@) =~= paths(before).remove(i as int));
        }
    }
}

} // verus!
