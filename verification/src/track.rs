//! Track metadata and the display line built from it.
//!
//! The backend hands the bridge a metadata record whose fields may each
//! be missing.  The display line substitutes a literal fallback for
//! every missing field, so no segment of the line is ever empty.

use vstd::prelude::*;

verus! {

/// The metadata of the current track, as far as the display line needs
/// it: each field may be absent.
#[derive(Clone, Debug)]
pub struct TrackInfo {
    /// The artists of the track; an empty list stands for an absent
    /// artist entry.
    pub artists: Vec<String>,
    /// The title of the track, when the metadata carries one.
    pub title: Option<String>,
    /// The album of the track, when the metadata carries one.
    pub album: Option<String>,
}

/// The mathematical content of a `TrackInfo`.
pub struct TrackView {
    /// The artists, each as a character sequence.
    pub artists: Seq<Seq<char>>,
    /// The title, when present.
    pub title: Option<Seq<char>>,
    /// The album, when present.
    pub album: Option<Seq<char>>,
}

impl View for TrackInfo {
    type V = TrackView;

    open spec fn view(&self) -> TrackView {
        TrackView {
            artists: self.artists.deep_view(),
            title: self.title.deep_view(),
            album: self.album.deep_view(),
        }
    }
}

impl DeepView for TrackInfo {
    type V = TrackView;

    open spec fn deep_view(&self) -> TrackView {
        self.view()
    }
}

/// The parts, joined with the separator between each two of them.
pub open spec fn join_with(parts: Seq<Seq<char>>, sep: Seq<char>) -> Seq<char>
    decreases parts.len(),
{
    if parts.len() == 0 {
        Seq::empty()
    } else if parts.len() == 1 {
        parts[0]
    } else {
        parts[0] + sep + join_with(parts.drop_first(), sep)
    }
}

/// Joining one more part appends a separator and the part.
pub proof fn lemma_join_push(parts: Seq<Seq<char>>, sep: Seq<char>, last: Seq<char>)
    ensures
        join_with(parts.push(last), sep) == if parts.len() == 0 {
            last
        } else {
            join_with(parts, sep) + sep + last
        },
    decreases parts.len(),
{
    if parts.len() == 0 {
        assert(parts.push(last)[0] == last);
    } else {
        lemma_join_push(parts.drop_first(), sep, last);
        assert(parts.push(last).drop_first() =~= parts.drop_first().push(last));
        assert(join_with(parts.push(last), sep) =~= join_with(parts, sep) + sep + last);
    }
}

/// The artist segment of the display line: the artists joined with a
/// comma, or the literal fallback when the list is empty.
pub open spec fn artists_part(artists: Seq<Seq<char>>) -> Seq<char> {
    if artists.len() == 0 {
        "Unknown"@
    } else {
        join_with(artists, ", "@)
    }
}

/// The title segment: the title, or the literal fallback.
pub open spec fn title_part(title: Option<Seq<char>>) -> Seq<char> {
    match title {
        Some(t) => t,
        None => "Unknown track"@,
    }
}

/// The album segment: the album, or the literal fallback.
pub open spec fn album_part(album: Option<Seq<char>>) -> Seq<char> {
    match album {
        Some(a) => a,
        None => "Unknown album"@,
    }
}

/// The whole display line built from a metadata record:
/// `artists: title - album`, with each missing field replaced by its
/// fallback.
pub open spec fn spec_song_string(t: TrackView) -> Seq<char> {
    artists_part(t.artists) + ": "@ + title_part(t.title) + " - "@ + album_part(t.album)
}

/// Builds the display line for a track: the artists joined with
/// commas, then the title, then the album, each missing field replaced
/// by its literal fallback.
pub fn create_song_string(track: &TrackInfo) -> (r: String)
    ensures
        r@ == spec_song_string(track@),
{
    let n = track.artists.len();
    let mut line: String;
    if n == 0 {
        line = String::from_str("Unknown");
    } else {
        line = String::new();
        let mut i: usize = 0;
        while i < n
            invariant
                i <= n,
                n == track.artists@.len(),
                n > 0,
                line@ == join_with(track@.artists.take(i as int), ", "@),
            decreases n - i,
        {
            if i > 0 {
                line.append(", ");
            }
            line.append(track.artists[i].as_str());
            proof {
                assert(track@.artists.take(i + 1) =~= track@.artists.take(i as int).push(
                    track@.artists[i as int],
                ));
                lemma_join_push(track@.artists.take(i as int), ", "@, track@.artists[i as int]);
            }
            i += 1;
        }
        proof {
            assert(track@.artists.take(n as int) =~= track@.artists);
        }
    }
    line.append(": ");
    match &track.title {
        Some(t) => line.append(t.as_str()),
        None => line.append("Unknown track"),
    }
    line.append(" - ");
    match &track.album {
        Some(a) => line.append(a.as_str()),
        None => line.append("Unknown album"),
    }
    line
}

/// No segment of the display line is ever empty: a missing field is
/// replaced by its literal fallback, and a present, non-empty field
/// stands as itself.  (A field that is present but empty would make
/// its segment empty, so those are left out here.)
pub proof fn lemma_fallback_completeness(t: TrackView)
    requires
        forall|i: int| 0 <= i < t.artists.len() ==> t.artists[i].len() > 0,
        t.title is Some ==> t.title->Some_0.len() > 0,
        t.album is Some ==> t.album->Some_0.len() > 0,
    ensures
        t.artists.len() == 0 ==> artists_part(t.artists) == "Unknown"@,
        t.title is None ==> title_part(t.title) == "Unknown track"@,
        t.album is None ==> album_part(t.album) == "Unknown album"@,
        artists_part(t.artists).len() > 0,
        title_part(t.title).len() > 0,
        album_part(t.album).len() > 0,
{
    reveal_strlit("Unknown");
    reveal_strlit("Unknown track");
    reveal_strlit("Unknown album");
    if t.artists.len() > 0 {
        assert(t.artists[0].len() > 0);
    }
}

} // verus!
