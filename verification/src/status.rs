//! Playback status as reported by the media backend.
//!
//! The backend reports its state as a free-form string; the bridge maps
//! it case-insensitively onto a closed set of states, with every
//! unrecognized string collapsing to `Unknown`.

use vstd::prelude::*;

verus! {

/// The playback states a track can be in, as far as the bridge cares.
#[derive(Clone, Copy, Debug, PartialEq, Eq, Structural)]
pub enum PlaybackStatus {
    /// A song is currently playing.
    Playing,
    /// The current song is paused.
    Paused,
    /// The player exited or stopped playback.
    Stopped,
    /// Any status string the bridge does not recognize.
    Unknown,
}

/// Maps an ASCII upper-case letter to its lower-case form and leaves
/// every other character unchanged.
pub open spec fn lower_char(c: char) -> char {
    if 'A' <= c && c <= 'Z' {
        (((c as u8) + 32) as char)
    } else {
        c
    }
}

/// A string with each ASCII upper-case letter lowered.
pub open spec fn lowered(s: Seq<char>) -> Seq<char> {
    s.map_values(|c: char| lower_char(c))
}

/// The status a reported string stands for: a case-insensitive match
/// against the three known status words, anything else `Unknown`.
pub open spec fn spec_status_of(s: Seq<char>) -> PlaybackStatus {
    if lowered(s) == "playing"@ {
        PlaybackStatus::Playing
    } else if lowered(s) == "paused"@ {
        PlaybackStatus::Paused
    } else if lowered(s) == "stopped"@ {
        PlaybackStatus::Stopped
    } else {
        PlaybackStatus::Unknown
    }
}

fn lower_char_exec(c: char) -> (r: char)
    ensures
        r == lower_char(c),
{
    if 'A' <= c && c <= 'Z' {
        ((c as u8) + 32) as char
    } else {
        c
    }
}

/// Compares a string, lowered, against an expected string.
fn eq_lowered(s: &str, t: &str) -> (r: bool)
    ensures
        r == (lowered(s@) == t@),
{
    let n = s.unicode_len();
    let m = t.unicode_len();
    if n != m {
        proof {
            assert(lowered(s@).len() == s@.len());
        }
        return false;
    }
    let mut i: usize = 0;
    while i < n
        invariant
            i <= n,
            n == s@.len(),
            n == t@.len(),
            forall|j: int| 0 <= j < i ==> lowered(s@)[j] == t@[j],
        decreases n - i,
    {
        let cs = s.get_char(i);
        let ct = t.get_char(i);
        if lower_char_exec(cs) != ct {
            proof {
                assert(lowered(s@)[i as int] != t@[i as int]);
            }
            return false;
        }
        i += 1;
    }
    proof {
        assert(lowered(s@) =~= t@);
    }
    true
}

impl PlaybackStatus {
    /// Maps a backend-reported status string onto a playback status,
    /// ignoring ASCII case; any unrecognized string maps to `Unknown`.
    pub fn from_label(s: &str) -> (r: PlaybackStatus)
        ensures
            r == spec_status_of(s@),
    {
        if eq_lowered(s, "playing") {
            PlaybackStatus::Playing
        } else if eq_lowered(s, "paused") {
            PlaybackStatus::Paused
        } else if eq_lowered(s, "stopped") {
            PlaybackStatus::Stopped
        } else {
            PlaybackStatus::Unknown
        }
    }
}

impl From<String> for PlaybackStatus {
    fn from(value: String) -> (r: Self) {
        PlaybackStatus::from_label(value.as_str())
    }
}

impl vstd::std_specs::convert::FromSpecImpl<String> for PlaybackStatus {
    open spec fn obeys_from_spec() -> bool {
        true
    }

    open spec fn from_spec(value: String) -> Self {
        spec_status_of(value@)
    }
}

} // verus!
