use spotibar::arguments::Arguments;
use spotibar::commands::SongCommand;
use spotibar::poller::{poll_tick, DisplayState, Emission, PollInput};
use spotibar::server::{
    find_port, handle_datagram, port_in_range, retry_port, DatagramOutcome,
};
use spotibar::status::PlaybackStatus;
use spotibar::track::TrackInfo;

#[test]
fn live_playing_command_is_executed() {
    let out = handle_datagram(
        true,
        Some(PlaybackStatus::Playing),
        SongCommand::Pause.wire_bytes(),
    );
    assert_eq!(out, DatagramOutcome::Execute(SongCommand::Pause));
}

#[test]
fn paused_and_unknown_status_still_execute() {
    let out = handle_datagram(true, Some(PlaybackStatus::Paused), SongCommand::Play.wire_bytes());
    assert_eq!(out, DatagramOutcome::Execute(SongCommand::Play));
    let out = handle_datagram(true, Some(PlaybackStatus::Unknown), SongCommand::Play.wire_bytes());
    assert_eq!(out, DatagramOutcome::Execute(SongCommand::Play));
}

#[test]
fn stopped_status_drops_valid_command() {
    let out = handle_datagram(true, Some(PlaybackStatus::Stopped), SongCommand::Next.wire_bytes());
    assert_eq!(out, DatagramOutcome::Drop);
}

#[test]
fn failed_status_fetch_drops_valid_command() {
    let out = handle_datagram(true, None, SongCommand::Next.wire_bytes());
    assert_eq!(out, DatagramOutcome::Drop);
}

#[test]
fn dead_connection_asks_for_reconnect() {
    let out = handle_datagram(false, None, SongCommand::Next.wire_bytes());
    assert_eq!(out, DatagramOutcome::Reconnect);
}

#[test]
fn invalid_payload_is_dropped_whatever_the_status() {
    for status in [
        Some(PlaybackStatus::Playing),
        Some(PlaybackStatus::Paused),
        Some(PlaybackStatus::Stopped),
        Some(PlaybackStatus::Unknown),
        None,
    ] {
        let out = handle_datagram(true, status, b"\"Louder\"");
        assert_eq!(out, DatagramOutcome::Drop);
    }
}

#[test]
fn next_while_playing_end_to_end() {
    let payload = SongCommand::Next.wire_bytes();
    assert_eq!(SongCommand::decode(payload), Some(SongCommand::Next));
    let out = handle_datagram(true, Some(PlaybackStatus::Playing), payload);
    assert_eq!(out, DatagramOutcome::Execute(SongCommand::Next));
    assert_eq!(SongCommand::Next.method_name(), "Next");

    let song = |title: &str| PollInput::Connected {
        metadata: Some(TrackInfo {
            artists: vec!["Artist".to_string()],
            title: Some(title.to_string()),
            album: Some("Album".to_string()),
        }),
        status: Some(PlaybackStatus::Playing),
    };
    let mut st = DisplayState::new();
    poll_tick(&mut st, &song("Before"));
    let e = poll_tick(&mut st, &song("After"));
    assert!(matches!(e, Emission::SongLine { .. }));
    let e = poll_tick(&mut st, &song("After"));
    assert!(matches!(e, Emission::Silent));
}

#[test]
fn port_bounds_are_exclusive() {
    assert!(!port_in_range(1024));
    assert!(port_in_range(1025));
    assert!(port_in_range(33333));
    assert!(port_in_range(63334));
    assert!(!port_in_range(63335));
    assert!(!port_in_range(0));
    assert!(!port_in_range(u32::MAX));
}

#[test]
fn retry_steps_one_port_up() {
    assert_eq!(retry_port(33333), 33334);
}

#[test]
fn bound_port_differs_when_first_is_taken() {
    let requested: u32 = 33333;
    let free = vec![false, true, true];
    let bound = find_port(requested, &free).unwrap();
    assert_eq!(bound, 33334);
    assert!(bound >= requested + 1);
}

#[test]
fn retry_walks_past_several_taken_ports() {
    let free = vec![false, false, false, true];
    assert_eq!(find_port(40000, &free), Some(40003));
}

#[test]
fn free_port_binds_immediately() {
    let free = vec![true, false];
    assert_eq!(find_port(33333, &free), Some(33333));
}

#[test]
fn no_free_port_means_no_bind_yet() {
    let free = vec![false, false, false];
    assert_eq!(find_port(33333, &free), None);
}

#[test]
fn arguments_carry_port_and_action() {
    let a = Arguments::new(40000, "toggle".to_string());
    assert_eq!(a.port, 40000);
    assert_eq!(a.action, "toggle");
}

#[test]
fn default_arguments() {
    let a = Arguments::default();
    assert_eq!(a.port, 33333);
    assert_eq!(a.action, "");
}
