use spotibar::status::PlaybackStatus;

#[test]
fn recognizes_exact_lowercase_words() {
    assert_eq!(PlaybackStatus::from_label("playing"), PlaybackStatus::Playing);
    assert_eq!(PlaybackStatus::from_label("paused"), PlaybackStatus::Paused);
    assert_eq!(PlaybackStatus::from_label("stopped"), PlaybackStatus::Stopped);
}

#[test]
fn recognizes_backend_capitalization() {
    assert_eq!(PlaybackStatus::from_label("Playing"), PlaybackStatus::Playing);
    assert_eq!(PlaybackStatus::from_label("Paused"), PlaybackStatus::Paused);
    assert_eq!(PlaybackStatus::from_label("Stopped"), PlaybackStatus::Stopped);
}

#[test]
fn recognizes_mixed_case() {
    assert_eq!(PlaybackStatus::from_label("PLAYING"), PlaybackStatus::Playing);
    assert_eq!(PlaybackStatus::from_label("pAuSeD"), PlaybackStatus::Paused);
    assert_eq!(PlaybackStatus::from_label("sTOPPEd"), PlaybackStatus::Stopped);
}

#[test]
fn unrecognized_strings_map_to_unknown() {
    assert_eq!(PlaybackStatus::from_label(""), PlaybackStatus::Unknown);
    assert_eq!(PlaybackStatus::from_label("play"), PlaybackStatus::Unknown);
    assert_eq!(PlaybackStatus::from_label("playingg"), PlaybackStatus::Unknown);
    assert_eq!(PlaybackStatus::from_label("stop"), PlaybackStatus::Unknown);
    assert_eq!(PlaybackStatus::from_label("Buffering"), PlaybackStatus::Unknown);
}

#[test]
fn non_ascii_strings_map_to_unknown() {
    assert_eq!(PlaybackStatus::from_label("pl\u{e4}ying"), PlaybackStatus::Unknown);
    assert_eq!(PlaybackStatus::from_label("\u{266b}"), PlaybackStatus::Unknown);
}

#[test]
fn from_string_matches_from_label() {
    let s = String::from("Playing");
    assert_eq!(PlaybackStatus::from(s), PlaybackStatus::Playing);
    let s = String::from("nonsense");
    assert_eq!(PlaybackStatus::from(s), PlaybackStatus::Unknown);
}
