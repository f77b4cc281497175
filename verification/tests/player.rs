use spotify_tui::panel::{now_playing_text, GRID_LOADING, NOT_RUNNING_HINT, NOT_RUNNING_TITLE};
use spotify_tui::types::PlaybackState;
use spotify_tui::player::{
    command_script, parse_status_output, running_from_output, split_on_bars, PlayerCommand,
    Status,
};

#[test]
fn scripts() {
    assert_eq!(command_script(PlayerCommand::PlayPause), "tell application \"Spotify\" to playpause");
    assert_eq!(command_script(PlayerCommand::NextTrack), "tell application \"Spotify\" to next track");
    assert_eq!(
        command_script(PlayerCommand::PreviousTrack),
        "tell application \"Spotify\" to previous track"
    );
    assert_eq!(
        command_script(PlayerCommand::SetVolume(70)),
        "tell application \"Spotify\" to set sound volume to 70"
    );
    assert_eq!(
        command_script(PlayerCommand::SetVolume(-5)),
        "tell application \"Spotify\" to set sound volume to -5"
    );
}

#[test]
fn running_answer() {
    assert!(running_from_output(" true\n"));
    assert!(!running_from_output("false"));
    assert!(!running_from_output(""));
}

#[test]
fn status_answer() {
    let out = "Song|||Artist|||Album|||215000|||12.5|||playing|||65|||https://art";
    let f = parse_status_output(out).unwrap();
    assert_eq!(f.track, "Song");
    assert_eq!(f.artist, "Artist");
    assert_eq!(f.album, "Album");
    assert_eq!(f.duration, "215000");
    assert_eq!(f.position, "12.5");
    assert!(f.is_playing);
    assert_eq!(f.volume, 65);
    assert_eq!(f.album_art_url, "https://art");
    let s = Status::from_fields(f, 215000, 12500);
    assert!(s.is_running);
    assert_eq!(s.duration_ms, 215000);

    let paused = parse_status_output("a|||b|||c|||1|||2|||paused|||loud|||u").unwrap();
    assert!(!paused.is_playing);
    assert_eq!(paused.volume, 0);
    assert!(parse_status_output("a|||b|||c").is_none());
}

#[test]
fn bar_splitting() {
    let v: Vec<char> = "a||||b".chars().collect();
    let parts: Vec<String> = split_on_bars(&v).into_iter().map(|p| p.into_iter().collect()).collect();
    assert_eq!(parts, vec!["a".to_string(), "|b".to_string()]);
    let e: Vec<char> = Vec::new();
    assert_eq!(split_on_bars(&e).len(), 1);
}

#[test]
fn now_playing_text_is_lowercased_and_cut() {
    let stopped = Status { is_running: false, ..Default::default() };
    assert!(now_playing_text(&stopped, &None, 40).is_none());
    assert_eq!(NOT_RUNNING_TITLE, "spotify desktop app is not running");
    assert_eq!(NOT_RUNNING_HINT, "start spotify, then press n or p");
    assert_eq!(GRID_LOADING, "loading...");

    let status = Status {
        is_running: true,
        is_playing: false,
        track: "Hello World".to_string(),
        artist: "ADELE".to_string(),
        album: "25".to_string(),
        album_art_url: "HTTP://X".to_string(),
        ..Default::default()
    };
    let t = now_playing_text(&status, &None, 8).unwrap();
    assert_eq!(t.track, "hello\u{2026}");
    assert_eq!(t.artist, "adele");
    assert_eq!(t.album, "25");
    assert_eq!(t.art.as_deref(), Some("art: \u{2026}"));
    assert_eq!(t.state, "paused");
    assert_eq!(t.shuffle, "?");
    assert_eq!(t.repeat, "?");

    let playback = PlaybackState { shuffle_state: true, repeat_state: "Track".to_string(), ..Default::default() };
    let plain = Status { album_art_url: String::new(), is_playing: true, ..status };
    let t = now_playing_text(&plain, &Some(playback), 40).unwrap();
    assert!(t.art.is_none());
    assert_eq!(t.track, "hello world");
    assert_eq!(t.state, "playing");
    assert_eq!(t.shuffle, "on");
    assert_eq!(t.repeat, "track");
}
