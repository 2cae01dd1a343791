use mpris_spotifyd_pifi::mpris_client::{
    contains_str, find_spotify_player, is_spotify_identity, lowered_identity_is_spotify,
    PlaybackStatus, TrackInfo,
};

#[test]
fn contains_str_finds_substrings() {
    assert!(contains_str("xxabcxx", "abc"));
    assert!(contains_str("abc", "abc"));
    assert!(contains_str("abc", ""));
    assert!(contains_str("", ""));
    assert!(!contains_str("ab", "abc"));
    assert!(!contains_str("axbxc", "abc"));
    assert!(contains_str("ąęść", "ęś"));
    assert!(contains_str("aab", "ab"));
}

#[test]
fn lowered_identity_check_is_case_sensitive() {
    assert!(lowered_identity_is_spotify("spotifyd"));
    assert!(!lowered_identity_is_spotify("Spotify"));
    assert!(!lowered_identity_is_spotify("vlc media player"));
}

#[test]
fn spotify_identity_ignores_case() {
    assert!(is_spotify_identity("Spotify"));
    assert!(is_spotify_identity("SPOTIFY"));
    assert!(is_spotify_identity("spotifyd"));
    assert!(is_spotify_identity("My SpotifyD speaker"));
    assert!(!is_spotify_identity("VLC media player"));
    assert!(!is_spotify_identity("Spot ify"));
    assert!(!is_spotify_identity(""));
}

#[test]
fn first_spotify_player_is_chosen() {
    let ids = vec![
        "VLC media player".to_string(),
        "Spotify".to_string(),
        "spotifyd".to_string(),
    ];
    assert_eq!(find_spotify_player(&ids), Some(1));
    let ids = vec!["spotifyd".to_string(), "Spotify".to_string()];
    assert_eq!(find_spotify_player(&ids), Some(0));
}

#[test]
fn no_spotify_player_found() {
    let ids = vec!["VLC media player".to_string(), "mpv".to_string()];
    assert_eq!(find_spotify_player(&ids), None);
    assert_eq!(find_spotify_player(&Vec::new()), None);
}

#[test]
fn track_info_defaults_for_missing_data() {
    let t = TrackInfo::from_player_state(None, None, None, None, None);
    assert_eq!(t.title, "Unknown");
    assert_eq!(t.artist, "Unknown Artist");
    assert_eq!(t.position, 0);
    assert_eq!(t.length, 0);
    assert_eq!(t.status, "Stopped");
}

#[test]
fn track_info_takes_first_artist() {
    let t = TrackInfo::from_player_state(
        Some("Song 2".to_string()),
        Some(vec!["Blur".to_string(), "Someone Else".to_string()]),
        Some(61_500_000),
        Some(122_000_000),
        Some(PlaybackStatus::Playing),
    );
    assert_eq!(t.title, "Song 2");
    assert_eq!(t.artist, "Blur");
    assert_eq!(t.position, 61_500_000);
    assert_eq!(t.length, 122_000_000);
    assert_eq!(t.status, "Playing");
}

#[test]
fn empty_artist_list_means_unknown_artist() {
    let t = TrackInfo::from_player_state(
        Some("Intro".to_string()),
        Some(Vec::new()),
        None,
        Some(5),
        Some(PlaybackStatus::Paused),
    );
    assert_eq!(t.artist, "Unknown Artist");
    assert_eq!(t.status, "Paused");
    assert_eq!(t.position, 0);
    assert_eq!(t.length, 5);
}

#[test]
fn playback_status_names_match_debug() {
    for s in [PlaybackStatus::Playing, PlaybackStatus::Paused, PlaybackStatus::Stopped] {
        assert_eq!(s.name(), format!("{:?}", s));
    }
}

#[test]
fn default_track_info_is_empty() {
    let t = TrackInfo::default();
    assert_eq!(t.title, "");
    assert_eq!(t.artist, "");
    assert_eq!(t.position, 0);
    assert_eq!(t.length, 0);
    assert_eq!(t.status, "");
}

fn track(title: &str, artist: &str, position: u64) -> TrackInfo {
    TrackInfo::from_player_state(
        Some(title.to_string()),
        Some(vec![artist.to_string()]),
        Some(position),
        Some(200_000_000),
        Some(PlaybackStatus::Playing),
    )
}

#[test]
fn track_change_detection() {
    let a = track("One", "Metallica", 10_000_000);
    assert!(!a.differs_from(&a));
    assert!(!track("One", "Metallica", 10_999_999).differs_from(&a));
    assert!(track("One", "Metallica", 11_000_000).differs_from(&a));
    assert!(track("One", "Metallica", 9_999_999).differs_from(&a));
    assert!(track("Two", "Metallica", 10_000_000).differs_from(&a));
    assert!(track("One", "Megadeth", 10_000_000).differs_from(&a));
}
