use spotify_tui::messages::AppMessage;
use spotify_tui::oauth::Token;
use spotify_tui::player::{PlayerCommand, Status};
use spotify_tui::state::{App, Config, Effect, Section};
use spotify_tui::transitions::{next_repeat_state, KeyCode, KeyInput};
use spotify_tui::types::{
    Artist, Device, PlaybackState, Playlist, PlaylistTracks, SearchItems, SearchResults, Track,
};
use spotify_tui::update::ResultInfo;

fn key(c: char) -> KeyInput {
    KeyInput { code: KeyCode::Char(c), ctrl: false, release: false }
}

fn code(k: KeyCode) -> KeyInput {
    KeyInput { code: k, ctrl: false, release: false }
}

fn signed_in() -> App {
    let cfg = Config { client_id: " cid ".to_string(), accent_hue: 400 };
    let token = Token { access_token: "tok".to_string(), expires_at: 10_000, ..Default::default() };
    App::new("1.0.0".to_string(), false, Some(cfg), Some(token), 100_000, 1_000)
}

fn signed_out() -> App {
    let cfg = Config { client_id: "cid".to_string(), accent_hue: 10 };
    App::new("1.0.0".to_string(), false, Some(cfg), None, 100_000, 1_000)
}

fn track(name: &str, uri: &str, artist: &str) -> Track {
    Track {
        name: name.to_string(),
        uri: uri.to_string(),
        artists: vec![Artist { name: artist.to_string(), uri: String::new() }],
        ..Default::default()
    }
}

#[test]
fn start_up_reads_the_configuration() {
    let app = signed_in();
    assert_eq!(app.section, Section::NowPlaying);
    assert_eq!(app.setup_client_id, "cid");
    assert_eq!(app.accent_hue, 40);
    assert!(app.authenticated);
    assert_eq!(app.api_client.as_ref().unwrap().client_id, "cid");
    assert_eq!(app.last_status_fetch, 95_000);
    let none = App::new("1.0.0".to_string(), false, None, None, 3, 0);
    assert_eq!(none.section, Section::Setup);
    assert_eq!(none.accent_hue, 120);
    assert_eq!(none.last_status_fetch, 3);
    let setup = App::new("1.0.0".to_string(), true, None, None, 3, 0);
    assert!(setup.setup_auto_open);
    let expired = App::new(
        "1.0.0".to_string(),
        false,
        Some(Config { client_id: "cid".to_string(), accent_hue: 0 }),
        Some(Token { expires_at: 1_005, ..Default::default() }),
        0,
        1_000,
    );
    assert!(!expired.authenticated);
}

#[test]
fn quit_keys() {
    let mut app = signed_in();
    assert!(app.handle_key(key('q'), 200_000, true).quit);
    let ctrl_c = KeyInput { code: KeyCode::Char('c'), ctrl: true, release: false };
    assert!(app.handle_key(ctrl_c, 200_000, true).quit);
    let released = KeyInput { code: KeyCode::Char('q'), ctrl: false, release: true };
    let out = app.handle_key(released, 200_000, true);
    assert!(!out.quit);
    assert!(out.effects.is_empty());
}

#[test]
fn lists_need_a_sign_in() {
    let mut app = signed_out();
    let out = app.handle_key(key('2'), 200_000, true);
    assert!(!out.quit);
    assert!(out.effects.is_empty());
    assert_eq!(app.section, Section::Auth);
    assert_eq!(app.prev_section, Section::Playlists);
    assert_eq!(app.feedback.as_deref(), Some("auth required"));
    assert_eq!(app.feedback_until, 202_200);
}

#[test]
fn signed_in_lists_load() {
    let mut app = signed_in();
    let out = app.handle_key(key('2'), 200_000, true);
    assert_eq!(app.section, Section::Playlists);
    assert_eq!(app.feedback.as_deref(), Some("loading playlists"));
    assert!(matches!(out.effects.as_slice(), [Effect::FetchPlaylists]));
    app.handle_message(
        AppMessage::Playlists(vec![
            Playlist { id: "p0".to_string(), name: "Zero".to_string(), ..Default::default() },
            Playlist {
                id: "p1".to_string(),
                name: "One".to_string(),
                uri: "u1".to_string(),
                tracks: PlaylistTracks { total: 3 },
            },
        ]),
        200_100,
    );
    assert_eq!(app.feedback.as_deref(), Some("loaded 2 playlists"));
    app.handle_key(key('j'), 200_200, true);
    app.handle_key(key('j'), 200_300, true);
    assert_eq!(app.selected_index, 1);
    let out = app.handle_key(code(KeyCode::Enter), 200_400, true);
    assert_eq!(app.section, Section::PlaylistTracks);
    assert_eq!(app.selected_playlist.as_ref().unwrap().id, "p1");
    assert!(matches!(out.effects.as_slice(), [Effect::FetchPlaylistTracks(id)] if id == "p1"));
    app.handle_message(AppMessage::PlaylistTracks(vec![track("Song", "spotify:track:1", "X")]), 200_500);
    let out = app.handle_key(code(KeyCode::Enter), 200_600, true);
    assert!(matches!(out.effects.as_slice(), [Effect::StartPlayback(uris, ctx)] if uris == &vec!["spotify:track:1".to_string()] && ctx.is_empty()));
    app.handle_key(code(KeyCode::Esc), 200_700, true);
    assert_eq!(app.section, Section::Playlists);
    assert_eq!(app.feedback.as_deref(), Some("back"));
}

#[test]
fn volume_keys_clamp() {
    let mut app = signed_in();
    app.status = Status { is_running: true, volume: 95, ..Default::default() };
    let out = app.handle_key(key('+'), 200_000, true);
    assert_eq!(app.status.volume, 100);
    assert_eq!(app.feedback.as_deref(), Some("volume 100%"));
    assert!(matches!(out.effects.as_slice(), [Effect::Player(PlayerCommand::SetVolume(100))]));
    // player keys within 150 ms of the last one are ignored
    let out = app.handle_key(key('-'), 200_100, true);
    assert!(out.effects.is_empty());
    assert_eq!(app.status.volume, 100);
    let out = app.handle_key(key('-'), 200_200, true);
    assert_eq!(app.status.volume, 90);
    assert!(matches!(out.effects.as_slice(), [Effect::Player(PlayerCommand::SetVolume(90))]));
    let out = app.handle_key(key(' '), 201_000, true);
    assert!(matches!(out.effects.as_slice(), [Effect::Player(PlayerCommand::PlayPause), Effect::FetchStatus]));
    assert_eq!(app.feedback.as_deref(), Some("play / pause"));
}

#[test]
fn search_flow() {
    let mut app = signed_in();
    app.handle_key(key('/'), 200_000, true);
    assert_eq!(app.section, Section::Search);
    for c in " Naija ".chars() {
        app.handle_key(key(c), 200_000, true);
    }
    assert_eq!(app.search_query, " Naija ");
    let out = app.handle_key(code(KeyCode::Enter), 200_000, true);
    assert_eq!(app.feedback.as_deref(), Some("searching for naija"));
    assert!(matches!(out.effects.as_slice(), [Effect::Search(q)] if q == "Naija"));
    let res = SearchResults {
        tracks: SearchItems { items: vec![Some(track("Song", "t:1", "ARTIST")), None] },
        playlists: SearchItems {
            items: vec![None, Some(Playlist { name: "Naija Mix".to_string(), uri: "p:1".to_string(), ..Default::default() })],
        },
        artists: SearchItems { items: vec![Some(Artist { name: "Burna".to_string(), uri: "a:1".to_string() })] },
    };
    app.handle_message(AppMessage::Search(res), 200_100);
    assert_eq!(app.search_items.len(), 3);
    assert_eq!(app.search_items[0].name, "song - artist");
    assert_eq!(app.search_items[1].kind, "playlist");
    assert_eq!(app.search_items[1].name, "naija mix");
    assert_eq!(app.search_items[2].kind, "artist");
    assert_eq!(app.feedback.as_deref(), Some("3 search matches"));
    app.handle_key(code(KeyCode::Down), 200_200, true);
    let out = app.handle_key(code(KeyCode::Enter), 200_300, true);
    assert!(matches!(out.effects.as_slice(), [Effect::StartPlayback(uris, ctx)] if uris.is_empty() && ctx == "p:1"));
    app.handle_key(code(KeyCode::Backspace), 200_400, true);
    assert_eq!(app.search_query, " Naija");
    assert!(app.search_items.is_empty());
    app.handle_key(code(KeyCode::Esc), 200_500, true);
    assert_eq!(app.section, Section::NowPlaying);
}

#[test]
fn setup_flow() {
    let mut app = App::new("1.0.0".to_string(), false, None, None, 0, 0);
    assert_eq!(app.section, Section::Setup);
    let out = app.handle_key(code(KeyCode::Enter), 10, true);
    assert!(out.effects.is_empty());
    assert_eq!(app.err.as_deref(), Some("client_id required"));
    app.handle_key(code(KeyCode::Left), 10, true);
    assert_eq!(app.setup_hue, 119);
    app.handle_key(code(KeyCode::Up), 10, true);
    assert_eq!(app.setup_hue, 129);
    assert_eq!(app.feedback.as_deref(), Some("accent hue 129"));
    for c in "abc".chars() {
        app.handle_key(key(c), 10, true);
    }
    app.handle_key(code(KeyCode::Backspace), 10, true);
    app.handle_key(key('q'), 10, true);
    assert_eq!(app.setup_client_id, "abq");
    let out = app.handle_key(code(KeyCode::Enter), 20, true);
    assert_eq!(app.section, Section::Auth);
    assert_eq!(app.accent_hue, 129);
    assert!(app.auth_in_progress);
    assert!(app.auth_url.starts_with("https://accounts.spotify.com/authorize?client_id=abq&"));
    match out.effects.as_slice() {
        [Effect::SaveConfig(cfg), Effect::ConnectClient(id), Effect::OpenBrowser(url, msg), Effect::StartAuthServer(state, verifier)] => {
            assert_eq!(cfg.client_id, "abq");
            assert_eq!(cfg.accent_hue, 129);
            assert_eq!(id, "abq");
            assert_eq!(url, &app.auth_url);
            assert_eq!(msg, "opened spotify auth");
            assert_eq!(state.len(), 22);
            assert_eq!(verifier.len(), 43);
            assert!(url.contains(&format!("state={}", state)));
        }
        other => panic!("unexpected effects {:?}", other),
    }
}

#[test]
fn hue_wraps_below_zero() {
    let mut app = App::new(
        "1.0.0".to_string(),
        true,
        Some(Config { client_id: String::new(), accent_hue: 5 }),
        None,
        0,
        0,
    );
    app.handle_key(code(KeyCode::Down), 10, true);
    assert_eq!(app.setup_hue, 355);
    app.handle_key(code(KeyCode::Up), 10, true);
    assert_eq!(app.setup_hue, 5);
}

#[test]
fn auth_panel_without_client_reads_configuration() {
    let mut app = App::new("1.0.0".to_string(), false, None, None, 0, 0);
    app.handle_key(code(KeyCode::Esc), 10, true);
    app.handle_key(key('a'), 10, true);
    assert_eq!(app.section, Section::Auth);
    let out = app.handle_key(key('a'), 10, true);
    assert!(matches!(out.effects.as_slice(), [Effect::LoadConfigForAuth]));
    let r = app.auth_with_config(Some("   ".to_string()), 20);
    assert!(r.effects.is_empty());
    assert_eq!(app.err.as_deref(), Some("missing client_id in ~/.spotify-tui/config.json"));
    assert_eq!(app.feedback.as_deref(), Some("setup is required"));
    let r = app.auth_with_config(Some(" id2 ".to_string()), 30);
    assert!(matches!(r.effects.as_slice(), [Effect::ConnectClient(id), Effect::OpenBrowser(_, _), Effect::StartAuthServer(_, _)] if id == "id2"));
    app.on_browser_opened(Err("failed to open browser".to_string()), "opened spotify auth".to_string(), 40);
    assert_eq!(app.err.as_deref(), Some("failed to open browser"));
    app.handle_message(AppMessage::AuthComplete, 50);
    assert!(app.authenticated);
    assert_eq!(app.section, Section::NowPlaying);
    assert_eq!(app.feedback.as_deref(), Some("auth complete"));
}

#[test]
fn shuffle_and_repeat() {
    let mut app = signed_in();
    let out = app.handle_key(key('s'), 200_000, true);
    assert!(matches!(out.effects.as_slice(), [Effect::SetShuffle(true)]));
    assert_eq!(app.feedback.as_deref(), Some("shuffle on"));
    app.handle_message(
        AppMessage::Playback(PlaybackState { shuffle_state: true, repeat_state: "context".to_string(), ..Default::default() }),
        200_100,
    );
    let out = app.handle_key(key('s'), 200_200, true);
    assert!(matches!(out.effects.as_slice(), [Effect::SetShuffle(false)]));
    let out = app.handle_key(key('r'), 200_300, true);
    assert!(matches!(out.effects.as_slice(), [Effect::SetRepeat(s)] if s == "track"));
    assert_eq!(app.feedback.as_deref(), Some("repeat track"));
    assert_eq!(next_repeat_state(None), "context");
    let off = PlaybackState { repeat_state: "off".to_string(), ..Default::default() };
    assert_eq!(next_repeat_state(Some(&off)), "context");
    let track_mode = PlaybackState { repeat_state: "track".to_string(), ..Default::default() };
    assert_eq!(next_repeat_state(Some(&track_mode)), "off");
    let out = app.handle_key(key('u'), 200_400, false);
    assert!(out.effects.is_empty());
    let out = app.handle_key(key('u'), 200_400, true);
    assert!(matches!(out.effects.as_slice(), [Effect::CheckUpdates(true, true)]));
}

#[test]
fn messages_and_ticks() {
    let mut app = signed_in();
    app.handle_message(AppMessage::Error("boom".to_string(), true), 10);
    assert!(!app.authenticated);
    assert_eq!(app.section, Section::Auth);
    assert_eq!(app.err.as_deref(), Some("boom"));
    assert_eq!(app.feedback.as_deref(), Some("request failed"));
    let r = ResultInfo {
        current: "1.0.0".to_string(),
        latest: "v2.0.0".to_string(),
        update_available: true,
        checked_at: 1,
        message: String::new(),
    };
    app.handle_message(AppMessage::Update(r, false), 20);
    assert_eq!(app.feedback.as_deref(), Some("upgrade available: v2.0.0"));
    app.handle_message(AppMessage::UpdateErr("net".to_string(), false), 30);
    assert!(app.update_err.is_none());
    app.handle_message(AppMessage::UpdateErr("net".to_string(), true), 30);
    assert_eq!(app.update_err.as_deref(), Some("net"));
    app.handle_message(AppMessage::Devices(vec![Device::default()]), 40);
    assert_eq!(app.feedback.as_deref(), Some("loaded 1 devices"));

    let mut app = signed_in();
    app.handle_message(AppMessage::Playback(PlaybackState::default()), 100_000);
    app.handle_message(AppMessage::Status(Status::default()), 100_000);
    let tick = app.animation_tick;
    let effects = app.on_tick(100_500);
    assert!(effects.is_empty());
    assert_eq!(app.animation_tick, tick + 1);
    let effects = app.on_tick(106_000);
    assert!(matches!(effects.as_slice(), [Effect::FetchStatus, Effect::FetchPlayback]));
    app.set_feedback("hi".to_string(), 0);
    app.on_tick(2_200);
    assert_eq!(app.feedback.as_deref(), Some("hi"));
    app.on_tick(2_201);
    assert!(app.feedback.is_none());
}
