//! The status-polling state machine.
//!
//! Each polling tick the bridge probes the backend, computes the
//! display line and the status icon, and emits a line only when the
//! pair actually changed since the last emission.  The tick itself is a
//! pure step function here; the surrounding process sleeps, probes the
//! bus and prints what the step hands back.

use vstd::prelude::*;
use crate::status::PlaybackStatus;
use crate::track::TrackInfo;
use crate::track::TrackView;
use crate::track::create_song_string;
use crate::track::spec_song_string;

verus! {

/// The icon shown beside the display line.
#[derive(Clone, Copy, Debug, PartialEq, Eq, Structural)]
pub enum StatusIcon {
    /// A song is playing.
    Playing,
    /// The song is paused.
    Paused,
    /// Playback is stopped, the status is unknown, or the backend is
    /// unreachable.
    Stopped,
}

/// What the last emitted output looked like; compared each tick to
/// decide whether to emit again.
#[derive(Clone, Debug)]
pub struct DisplayState {
    /// The song text of the last emission.
    pub song: String,
    /// The icon of the last emission; `None` before anything was
    /// emitted.
    pub icon: Option<StatusIcon>,
}

/// The mathematical content of a `DisplayState`.
pub struct DisplayView {
    /// The song text of the last emission.
    pub song: Seq<char>,
    /// The icon of the last emission, when there was one.
    pub icon: Option<StatusIcon>,
}

impl View for DisplayState {
    type V = DisplayView;

    open spec fn view(&self) -> DisplayView {
        DisplayView { song: self.song@, icon: self.icon }
    }
}

impl DisplayState {
    /// The state before the first tick: nothing was emitted yet, so
    /// whatever the first tick computes counts as a change.
    pub fn new() -> (s: DisplayState)
        ensures
            s@.song == Seq::<char>::empty(),
            s@.icon is None,
    {
        DisplayState { song: String::new(), icon: None }
    }
}

/// What one polling tick found out about the backend.
#[derive(Clone, Debug)]
pub enum PollInput {
    /// No live connection: the handle was absent or failed its
    /// liveness probe.
    Disconnected,
    /// A live connection answered.  `metadata` is `None` when the
    /// metadata could not be read or parsed, and `status` is `None`
    /// when the status fetch failed.
    Connected { metadata: Option<TrackInfo>, status: Option<PlaybackStatus> },
}

/// The mathematical content of a `PollInput`.
pub enum PollView {
    /// No live connection.
    Disconnected,
    /// A live connection, with the fetched metadata and status.
    Connected { metadata: Option<TrackView>, status: Option<PlaybackStatus> },
}

impl View for PollInput {
    type V = PollView;

    open spec fn view(&self) -> PollView {
        match self {
            PollInput::Disconnected => PollView::Disconnected,
            PollInput::Connected { metadata, status } => PollView::Connected {
                metadata: metadata.deep_view(),
                status: *status,
            },
        }
    }
}

/// What a tick asks the process to print.
#[derive(Clone, Debug)]
pub enum Emission {
    /// Nothing changed: print nothing.
    Silent,
    /// Print the disconnected/stopped line.
    StoppedLine,
    /// Print the icon and the song text.
    SongLine { icon: StatusIcon, song: String },
}

/// The mathematical content of an `Emission`.
pub enum EmissionView {
    /// Print nothing.
    Silent,
    /// Print the disconnected/stopped line.
    StoppedLine,
    /// Print the icon and the song text.
    SongLine { icon: StatusIcon, song: Seq<char> },
}

impl View for Emission {
    type V = EmissionView;

    open spec fn view(&self) -> EmissionView {
        match self {
            Emission::Silent => EmissionView::Silent,
            Emission::StoppedLine => EmissionView::StoppedLine,
            Emission::SongLine { icon, song } => EmissionView::SongLine {
                icon: *icon,
                song: song@,
            },
        }
    }
}

/// The song text a tick computes: the display line of the metadata, or
/// the literal parse-failure fallback when none could be read.
pub open spec fn spec_song_text(metadata: Option<TrackView>) -> Seq<char> {
    match metadata {
        Some(t) => spec_song_string(t),
        None => "An error occured while parsing"@,
    }
}

/// The icon a tick computes: playing and paused keep their own icons;
/// stopped, unknown and a failed status fetch all collapse to the
/// stopped icon.
pub open spec fn spec_icon_of(status: Option<PlaybackStatus>) -> StatusIcon {
    match status {
        Some(PlaybackStatus::Playing) => StatusIcon::Playing,
        Some(PlaybackStatus::Paused) => StatusIcon::Paused,
        _ => StatusIcon::Stopped,
    }
}

/// One polling tick.  Disconnected: fall back to the stopped icon,
/// emitting the stopped line only on the tick where the icon actually
/// changes.  Connected: compute the song text and icon, emit only when
/// the pair differs from the stored state, and suppress the song text
/// whenever the new icon is the stopped one.
pub open spec fn spec_tick(st: DisplayView, inp: PollView) -> (DisplayView, EmissionView) {
    match inp {
        PollView::Disconnected => {
            if st.icon != Some(StatusIcon::Stopped) {
                (
                    DisplayView { song: st.song, icon: Some(StatusIcon::Stopped) },
                    EmissionView::StoppedLine,
                )
            } else {
                (st, EmissionView::Silent)
            }
        },
        PollView::Connected { metadata, status } => {
            let song = spec_song_text(metadata);
            let icon = spec_icon_of(status);
            if st.song != song || st.icon != Some(icon) {
                let st2 = DisplayView { song: song, icon: Some(icon) };
                if icon == StatusIcon::Stopped {
                    (st2, EmissionView::StoppedLine)
                } else {
                    (st2, EmissionView::SongLine { icon: icon, song: song })
                }
            } else {
                (st, EmissionView::Silent)
            }
        },
    }
}

/// Computes the song text for a tick from the fetched metadata.
pub fn compute_song(metadata: &Option<TrackInfo>) -> (r: String)
    ensures
        r@ == spec_song_text(metadata.deep_view()),
{
    match metadata {
        Some(t) => create_song_string(t),
        None => String::from_str("An error occured while parsing"),
    }
}

/// Computes the icon for a tick from the fetched status.
pub fn icon_of_status(status: &Option<PlaybackStatus>) -> (r: StatusIcon)
    ensures
        r == spec_icon_of(*status),
{
    match status {
        Some(PlaybackStatus::Playing) => StatusIcon::Playing,
        Some(PlaybackStatus::Paused) => StatusIcon::Paused,
        _ => StatusIcon::Stopped,
    }
}

/// Runs one polling tick against the stored display state and says
/// what to print.
pub fn poll_tick(state: &mut DisplayState, input: &PollInput) -> (emit: Emission)
    ensures
        final(state)@ == spec_tick(old(state)@, input@).0,
        emit@ == spec_tick(old(state)@, input@).1,
{
    match input {
        PollInput::Disconnected => {
            let was_stopped = match state.icon {
                Some(StatusIcon::Stopped) => true,
                _ => false,
            };
            if !was_stopped {
                state.icon = Some(StatusIcon::Stopped);
                Emission::StoppedLine
            } else {
                Emission::Silent
            }
        },
        PollInput::Connected { metadata, status } => {
            let song = compute_song(metadata);
            let icon = icon_of_status(status);
            let same_song = state.song == song;
            let same_icon = match state.icon {
                Some(i) => i == icon,
                None => false,
            };
            if !same_song || !same_icon {
                state.song = song;
                state.icon = Some(icon);
                match icon {
                    StatusIcon::Stopped => Emission::StoppedLine,
                    _ => Emission::SongLine { icon: icon, song: state.song.clone() },
                }
            } else {
                Emission::Silent
            }
        },
    }
}

/// The fixed glyphs the bridge prints, gathered once at startup and
/// never changed afterwards.
#[derive(Clone, Debug)]
pub struct IconConfig {
    /// The glyph naming the application at the front of the stopped
    /// line.
    pub app_icon: String,
    /// The glyph at the front of the song line.
    pub note_icon: String,
    /// The glyph for a playing song.
    pub playing_icon: String,
    /// The glyph for a paused song.
    pub paused_icon: String,
    /// The glyph for stopped or unreachable playback.
    pub stopped_icon: String,
}

/// The mathematical content of an `IconConfig`.
pub struct IconConfigView {
    /// The glyph naming the application.
    pub app_icon: Seq<char>,
    /// The glyph at the front of the song line.
    pub note_icon: Seq<char>,
    /// The glyph for a playing song.
    pub playing_icon: Seq<char>,
    /// The glyph for a paused song.
    pub paused_icon: Seq<char>,
    /// The glyph for stopped or unreachable playback.
    pub stopped_icon: Seq<char>,
}

impl View for IconConfig {
    type V = IconConfigView;

    open spec fn view(&self) -> IconConfigView {
        IconConfigView {
            app_icon: self.app_icon@,
            note_icon: self.note_icon@,
            playing_icon: self.playing_icon@,
            paused_icon: self.paused_icon@,
            stopped_icon: self.stopped_icon@,
        }
    }
}

/// The configured glyph for an icon.
pub open spec fn spec_glyph(cfg: IconConfigView, icon: StatusIcon) -> Seq<char> {
    match icon {
        StatusIcon::Playing => cfg.playing_icon,
        StatusIcon::Paused => cfg.paused_icon,
        StatusIcon::Stopped => cfg.stopped_icon,
    }
}

/// The line printed for an emission: the stopped line is the
/// application glyph and the stopped glyph; the song line is the note
/// glyph, the status glyph and the song text; silence prints nothing.
pub open spec fn spec_render(e: EmissionView, cfg: IconConfigView) -> Option<Seq<char>> {
    match e {
        EmissionView::Silent => None,
        EmissionView::StoppedLine => Some(cfg.app_icon + " "@ + cfg.stopped_icon),
        EmissionView::SongLine { icon, song } => Some(
            cfg.note_icon + " "@ + spec_glyph(cfg, icon) + " "@ + song,
        ),
    }
}

/// Renders an emission into the line to print, if any.
pub fn render_line(e: &Emission, cfg: &IconConfig) -> (out: Option<String>)
    ensures
        out.deep_view() == spec_render(e@, cfg@),
{
    match e {
        Emission::Silent => None,
        Emission::StoppedLine => {
            let mut line = cfg.app_icon.clone();
            line.append(" ");
            line.append(cfg.stopped_icon.as_str());
            Some(line)
        },
        Emission::SongLine { icon, song } => {
            let mut line = cfg.note_icon.clone();
            line.append(" ");
            let glyph = match icon {
                StatusIcon::Playing => cfg.playing_icon.as_str(),
                StatusIcon::Paused => cfg.paused_icon.as_str(),
                StatusIcon::Stopped => cfg.stopped_icon.as_str(),
            };
            line.append(glyph);
            line.append(" ");
            line.append(song.as_str());
            Some(line)
        },
    }
}

/// Debounce: when two consecutive connected ticks compute the same
/// song text and the same icon, the second tick emits nothing.
pub proof fn lemma_debounce(
    st: DisplayView,
    m1: Option<TrackView>,
    s1: Option<PlaybackStatus>,
    m2: Option<TrackView>,
    s2: Option<PlaybackStatus>,
)
    requires
        spec_song_text(m1) == spec_song_text(m2),
        spec_icon_of(s1) == spec_icon_of(s2),
    ensures
        (spec_tick(
            spec_tick(st, (PollView::Connected { metadata: m1, status: s1 })).0,
            (PollView::Connected { metadata: m2, status: s2 }),
        ).1) is Silent,
{
}

/// Edge-triggered disconnection: a disconnected tick always leaves the
/// stopped icon behind, so a second disconnected tick in a row emits
/// nothing.
pub proof fn lemma_disconnected_edge(st: DisplayView)
    ensures
        spec_tick(st, PollView::Disconnected).0.icon == Some(StatusIcon::Stopped),
        (spec_tick(spec_tick(st, PollView::Disconnected).0, PollView::Disconnected).1) is Silent,
{
}

} // verus!
