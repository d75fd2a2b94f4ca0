use spotibar::poller::{
    poll_tick, render_line, DisplayState, Emission, IconConfig, PollInput, StatusIcon,
};
use spotibar::status::PlaybackStatus;
use spotibar::track::TrackInfo;

fn track(title: &str) -> TrackInfo {
    TrackInfo {
        artists: vec!["Artist".to_string()],
        title: Some(title.to_string()),
        album: Some("Album".to_string()),
    }
}

fn connected(title: &str, status: PlaybackStatus) -> PollInput {
    PollInput::Connected { metadata: Some(track(title)), status: Some(status) }
}

fn icons() -> IconConfig {
    IconConfig {
        app_icon: "APP".to_string(),
        note_icon: "NOTE".to_string(),
        playing_icon: "PLAY".to_string(),
        paused_icon: "PAUSE".to_string(),
        stopped_icon: "STOP".to_string(),
    }
}

#[test]
fn first_connected_tick_emits_song_line() {
    let mut st = DisplayState::new();
    let e = poll_tick(&mut st, &connected("Song", PlaybackStatus::Playing));
    match e {
        Emission::SongLine { icon, song } => {
            assert_eq!(icon, StatusIcon::Playing);
            assert_eq!(song, "Artist: Song - Album");
        }
        _ => panic!("expected a song line"),
    }
}

#[test]
fn unchanged_tick_is_silent() {
    let mut st = DisplayState::new();
    poll_tick(&mut st, &connected("Song", PlaybackStatus::Playing));
    let e = poll_tick(&mut st, &connected("Song", PlaybackStatus::Playing));
    assert!(matches!(e, Emission::Silent));
}

#[test]
fn icon_transition_counting() {
    let statuses = [
        PlaybackStatus::Playing,
        PlaybackStatus::Playing,
        PlaybackStatus::Paused,
        PlaybackStatus::Stopped,
        PlaybackStatus::Stopped,
        PlaybackStatus::Playing,
    ];
    let mut st = DisplayState::new();
    poll_tick(&mut st, &connected("Song", PlaybackStatus::Playing));
    let mut emitted = 0;
    for s in statuses {
        let e = poll_tick(&mut st, &connected("Song", s));
        if !matches!(e, Emission::Silent) {
            emitted += 1;
        }
    }
    assert_eq!(emitted, 3);
}

#[test]
fn stopped_status_suppresses_song_text() {
    let mut st = DisplayState::new();
    let e = poll_tick(&mut st, &connected("Song", PlaybackStatus::Stopped));
    assert!(matches!(e, Emission::StoppedLine));
}

#[test]
fn unknown_status_maps_to_stopped_icon() {
    let mut st = DisplayState::new();
    let e = poll_tick(&mut st, &connected("Song", PlaybackStatus::Unknown));
    assert!(matches!(e, Emission::StoppedLine));
}

#[test]
fn failed_status_fetch_maps_to_stopped_icon() {
    let mut st = DisplayState::new();
    let inp = PollInput::Connected { metadata: Some(track("Song")), status: None };
    let e = poll_tick(&mut st, &inp);
    assert!(matches!(e, Emission::StoppedLine));
}

#[test]
fn failed_metadata_fetch_uses_parse_fallback() {
    let mut st = DisplayState::new();
    let inp = PollInput::Connected { metadata: None, status: Some(PlaybackStatus::Playing) };
    let e = poll_tick(&mut st, &inp);
    match e {
        Emission::SongLine { song, .. } => {
            assert_eq!(song, "An error occured while parsing");
        }
        _ => panic!("expected a song line"),
    }
}

#[test]
fn disconnection_is_edge_triggered() {
    let mut st = DisplayState::new();
    let first = poll_tick(&mut st, &PollInput::Disconnected);
    assert!(matches!(first, Emission::StoppedLine));
    let second = poll_tick(&mut st, &PollInput::Disconnected);
    assert!(matches!(second, Emission::Silent));
    let third = poll_tick(&mut st, &PollInput::Disconnected);
    assert!(matches!(third, Emission::Silent));
}

#[test]
fn reconnection_after_disconnect_emits_again() {
    let mut st = DisplayState::new();
    poll_tick(&mut st, &connected("Song", PlaybackStatus::Playing));
    poll_tick(&mut st, &PollInput::Disconnected);
    let e = poll_tick(&mut st, &connected("Song", PlaybackStatus::Playing));
    assert!(matches!(e, Emission::SongLine { .. }));
}

#[test]
fn render_silent_prints_nothing() {
    assert!(render_line(&Emission::Silent, &icons()).is_none());
}

#[test]
fn render_stopped_line() {
    let line = render_line(&Emission::StoppedLine, &icons()).unwrap();
    assert_eq!(line, "APP STOP");
}

#[test]
fn render_song_line() {
    let e = Emission::SongLine {
        icon: StatusIcon::Paused,
        song: "Artist: Song - Album".to_string(),
    };
    let line = render_line(&e, &icons()).unwrap();
    assert_eq!(line, "NOTE PAUSE Artist: Song - Album");
}
