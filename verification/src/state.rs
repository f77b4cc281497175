//! The state of the interface, its abstract view, and the effects that its
//! transitions ask the surrounding program to carry out.

use vstd::prelude::*;

use crate::oauth::{token_valid_at, APIClient, Token, TokenView};
use crate::player::{idle_status, PlayerCommand, Status, StatusView};
use crate::strs::{decimal, push_decimal, push_str, trim, trim_spec};
use crate::text::{section_label, section_label_spec};
use crate::types::{Device, PlaybackState, Playlist, QueueResponse, Track};
use crate::update::ResultInfo;

verus! {

/// The page of the dashboard where a Spotify application is created.
pub const DASHBOARD_URL: &'static str = "https://developer.spotify.com/dashboard";

/// How long a feedback message stays, in milliseconds.
pub const FEEDBACK_TIMEOUT_MS: u64 = 2200;

/// The accent hue used when the configuration names none.
pub const DEFAULT_ACCENT_HUE: u16 = 120;

/// A panel of the interface.
#[derive(Debug, Clone, Copy, PartialEq, Eq, Structural)]
pub enum Section {
    NowPlaying,
    Playlists,
    Queue,
    Liked,
    Search,
    Devices,
    PlaylistTracks,
    Setup,
    Help,
    Auth,
}

/// One search hit: its kind (`track`, `playlist` or `artist`), its name and its URI.
#[derive(Debug)]
pub struct SearchItem {
    pub kind: String,
    pub name: String,
    pub uri: String,
}

/// The characters of a search hit.
pub struct SearchItemView {
    pub kind: Seq<char>,
    pub name: Seq<char>,
    pub uri: Seq<char>,
}

impl View for SearchItem {
    type V = SearchItemView;

    open spec fn view(&self) -> SearchItemView {
        SearchItemView { kind: self.kind@, name: self.name@, uri: self.uri@ }
    }
}

/// The stored configuration: the application's client id and the accent hue.
#[derive(Debug, Default)]
pub struct Config {
    pub client_id: String,
    pub accent_hue: u16,
}

/// Work that a transition asks the surrounding program to do. The program hands the outcome
/// back where one matters.
#[derive(Debug)]
pub enum Effect {
    /// Read the player's status.
    FetchStatus,
    FetchPlaylists,
    FetchQueue,
    FetchLiked,
    /// Fetch the tracks of the playlist with this id.
    FetchPlaylistTracks(String),
    FetchPlayback,
    FetchDevices,
    /// Search for this query.
    Search(String),
    /// Start playing these track URIs, or else this context URI.
    StartPlayback(Vec<String>, String),
    /// Move playback to the device with this id.
    TransferDevice(String),
    SetShuffle(bool),
    SetRepeat(String),
    /// Check for a newer release: forced, and asked for by the user.
    CheckUpdates(bool, bool),
    /// Wait for the sign-in callback with this state and PKCE verifier.
    StartAuthServer(String, String),
    /// Open this URL in the browser; on success show the second text as feedback.
    OpenBrowser(String, String),
    /// Send a command to the desktop player.
    Player(PlayerCommand),
    /// Store this configuration.
    SaveConfig(Config),
    /// Set up the Web API client for this client id.
    ConnectClient(String),
    /// Read the stored configuration and hand it to `App::auth_with_config`.
    LoadConfigForAuth,
}

/// The abstract form of an effect.
pub enum EffectView {
    FetchStatus,
    FetchPlaylists,
    FetchQueue,
    FetchLiked,
    FetchPlaylistTracks(Seq<char>),
    FetchPlayback,
    FetchDevices,
    Search(Seq<char>),
    StartPlayback(Seq<Seq<char>>, Seq<char>),
    TransferDevice(Seq<char>),
    SetShuffle(bool),
    SetRepeat(Seq<char>),
    CheckUpdates(bool, bool),
    StartAuthServer(Seq<char>, Seq<char>),
    OpenBrowser(Seq<char>, Seq<char>),
    Player(PlayerCommand),
    SaveConfig(Seq<char>, u16),
    ConnectClient(Seq<char>),
    LoadConfigForAuth,
}

impl View for Effect {
    type V = EffectView;

    open spec fn view(&self) -> EffectView {
        match self {
            Effect::FetchStatus => EffectView::FetchStatus,
            Effect::FetchPlaylists => EffectView::FetchPlaylists,
            Effect::FetchQueue => EffectView::FetchQueue,
            Effect::FetchLiked => EffectView::FetchLiked,
            Effect::FetchPlaylistTracks(id) => EffectView::FetchPlaylistTracks(id@),
            Effect::FetchPlayback => EffectView::FetchPlayback,
            Effect::FetchDevices => EffectView::FetchDevices,
            Effect::Search(q) => EffectView::Search(q@),
            Effect::StartPlayback(uris, ctx) => EffectView::StartPlayback(uris.deep_view(), ctx@),
            Effect::TransferDevice(id) => EffectView::TransferDevice(id@),
            Effect::SetShuffle(b) => EffectView::SetShuffle(*b),
            Effect::SetRepeat(s) => EffectView::SetRepeat(s@),
            Effect::CheckUpdates(f, m) => EffectView::CheckUpdates(*f, *m),
            Effect::StartAuthServer(st, ver) => EffectView::StartAuthServer(st@, ver@),
            Effect::OpenBrowser(url, msg) => EffectView::OpenBrowser(url@, msg@),
            Effect::Player(c) => EffectView::Player(*c),
            Effect::SaveConfig(c) => EffectView::SaveConfig(c.client_id@, c.accent_hue),
            Effect::ConnectClient(id) => EffectView::ConnectClient(id@),
            Effect::LoadConfigForAuth => EffectView::LoadConfigForAuth,
        }
    }
}

/// The abstract form of a list of effects.
pub open spec fn effects_view(e: Seq<Effect>) -> Seq<EffectView> {
    e.map_values(|x: Effect| x@)
}

/// The state of the interface. Times are milliseconds on the program's monotonic clock.
pub struct App {
    pub section: Section,
    pub prev_section: Section,
    pub status: Status,
    pub playback: Option<PlaybackState>,
    pub playlists: Vec<Playlist>,
    pub playlist_tracks: Vec<Track>,
    pub selected_playlist: Option<Playlist>,
    pub queue: Option<QueueResponse>,
    pub liked_songs: Vec<Track>,
    pub search_query: String,
    pub search_items: Vec<SearchItem>,
    pub devices: Vec<Device>,
    pub selected_index: usize,
    pub err: Option<String>,
    pub update_result: Option<ResultInfo>,
    pub update_err: Option<String>,
    pub setup_client_id: String,
    pub setup_auto_open: bool,
    pub accent_hue: u16,
    pub setup_hue: u16,
    pub animation_tick: u64,
    pub feedback: Option<String>,
    pub feedback_until: u64,
    pub api_client: Option<APIClient>,
    pub authenticated: bool,
    pub auth_url: String,
    pub auth_in_progress: bool,
    pub width: u16,
    pub height: u16,
    pub last_action_at: u64,
    pub last_status_fetch: u64,
    pub last_api_fetch: u64,
    pub version: String,
}

/// The abstract state: what the transitions read and write, with texts as characters.
#[verifier::ext_equal]
pub struct AppView {
    pub section: Section,
    pub prev_section: Section,
    pub status: StatusView,
    pub playback: Option<PlaybackState>,
    pub playlists: Seq<Playlist>,
    pub playlist_tracks: Seq<Track>,
    pub selected_playlist: Option<Playlist>,
    pub queue: Option<QueueResponse>,
    pub liked_songs: Seq<Track>,
    pub search_query: Seq<char>,
    pub search_items: Seq<SearchItemView>,
    pub devices: Seq<Device>,
    pub selected_index: usize,
    pub err: Option<Seq<char>>,
    pub update_result: Option<ResultInfo>,
    pub update_err: Option<Seq<char>>,
    pub setup_client_id: Seq<char>,
    pub setup_auto_open: bool,
    pub accent_hue: u16,
    pub setup_hue: u16,
    pub animation_tick: u64,
    pub feedback: Option<Seq<char>>,
    pub feedback_until: u64,
    pub client: Option<Seq<char>>,
    pub client_token: Option<TokenView>,
    pub authenticated: bool,
    pub auth_url: Seq<char>,
    pub auth_in_progress: bool,
    pub width: u16,
    pub height: u16,
    pub last_action_at: u64,
    pub last_status_fetch: u64,
    pub last_api_fetch: u64,
    pub version: Seq<char>,
}

impl View for App {
    type V = AppView;

    open spec fn view(&self) -> AppView {
        AppView {
            section: self.section,
            prev_section: self.prev_section,
            status: self.status@,
            playback: self.playback,
            playlists: self.playlists@,
            playlist_tracks: self.playlist_tracks@,
            selected_playlist: self.selected_playlist,
            queue: self.queue,
            liked_songs: self.liked_songs@,
            search_query: self.search_query@,
            search_items: self.search_items@.map_values(|i: SearchItem| i@),
            devices: self.devices@,
            selected_index: self.selected_index,
            err: self.err.deep_view(),
            update_result: self.update_result,
            update_err: self.update_err.deep_view(),
            setup_client_id: self.setup_client_id@,
            setup_auto_open: self.setup_auto_open,
            accent_hue: self.accent_hue,
            setup_hue: self.setup_hue,
            animation_tick: self.animation_tick,
            feedback: self.feedback.deep_view(),
            feedback_until: self.feedback_until,
            client: match self.api_client {
                Some(c) => Some(c.client_id@),
                None => None,
            },
            client_token: match self.api_client {
                Some(c) => token_view(c.token),
                None => None,
            },
            authenticated: self.authenticated,
            auth_url: self.auth_url@,
            auth_in_progress: self.auth_in_progress,
            width: self.width,
            height: self.height,
            last_action_at: self.last_action_at,
            last_status_fetch: self.last_status_fetch,
            last_api_fetch: self.last_api_fetch,
            version: self.version@,
        }
    }
}

/// The abstract form of a token the client may hold.
pub open spec fn token_view(t: Option<Token>) -> Option<TokenView> {
    match t {
        Some(t) => Some(t@),
        None => None,
    }
}

/// The well-formedness of the state: both hues are degrees below 360.
pub open spec fn wf(v: AppView) -> bool {
    v.accent_hue < 360 && v.setup_hue < 360
}

// ---------------------------------------------------------------------------------------------
// Small steps that the transitions are made of.
/// `a + b`, or the largest `u64` when that overflows.
pub open spec fn sat_add(a: u64, b: u64) -> u64 {
    if a + b <= u64::MAX {
        (a + b) as u64
    } else {
        u64::MAX
    }
}

/// The time elapsed from `since` to `now`, or zero when `now` is earlier.
pub open spec fn elapsed(now: u64, since: u64) -> int {
    if now >= since {
        now - since
    } else {
        0
    }
}

/// Shows `msg` as feedback until `FEEDBACK_TIMEOUT_MS` after `now`.
pub open spec fn with_feedback(v: AppView, msg: Seq<char>, now: u64) -> AppView {
    AppView { feedback: Some(msg), feedback_until: sat_add(now, FEEDBACK_TIMEOUT_MS), ..v }
}

/// Moves to section `s`, remembering the current one and selecting the first entry.
pub open spec fn with_section(v: AppView, s: Section) -> AppView {
    AppView { prev_section: v.section, section: s, selected_index: 0, ..v }
}

/// Moves to section `s` and says so.
pub open spec fn navigated(v: AppView, s: Section, now: u64) -> AppView {
    with_feedback(with_section(v, s), "section: "@ + section_label_spec(s), now)
}

/// Whether a step needs a sign-in first: the user is not signed in.
pub open spec fn needs_auth(v: AppView) -> bool {
    !v.authenticated
}

/// The state after a step that needs a sign-in was refused: the sign-in panel, remembering
/// the current section.
pub open spec fn auth_required(v: AppView, now: u64) -> AppView {
    with_feedback(
        AppView { prev_section: v.section, section: Section::Auth, auth_in_progress: false, ..v },
        "auth required"@,
        now,
    )
}

/// The hue `setup_hue + step`, turned into degrees below 360.
pub open spec fn bumped_hue(hue: u16, step: int) -> u16 {
    ((hue + step) % 360) as u16
}

/// Turns the setup hue by `step` degrees; the accent hue follows it.
pub open spec fn hue_bumped(v: AppView, step: int, now: u64) -> AppView {
    let h = bumped_hue(v.setup_hue, step);
    with_feedback(AppView { setup_hue: h, accent_hue: h, ..v }, "accent hue "@ + decimal(h as nat), now)
}

/// The number of entries of the list that section `v.section` shows.
pub open spec fn list_len_spec(v: AppView) -> nat {
    match v.section {
        Section::Playlists => v.playlists.len(),
        Section::Queue => match v.queue {
            Some(q) => q.queue@.len(),
            None => 0,
        },
        Section::Liked => v.liked_songs.len(),
        Section::PlaylistTracks => v.playlist_tracks.len(),
        Section::Search => v.search_items.len(),
        Section::Devices => v.devices.len(),
        _ => 0,
    }
}

impl App {
    /// Shows `msg` as feedback for a while.
    pub fn set_feedback(&mut self, msg: String, now: u64)
        ensures
            final(self)@ == with_feedback(old(self)@, msg@, now),
    {
        self.feedback = Some(msg);
        self.feedback_until = now.saturating_add(FEEDBACK_TIMEOUT_MS);
    }

    /// Shows a fixed text as feedback for a while.
    pub fn say(&mut self, msg: &str, now: u64)
        ensures
            final(self)@ == with_feedback(old(self)@, msg@, now),
    {
        self.set_feedback(String::from_str(msg), now);
    }

    /// Moves to `section`, remembering the current one and selecting the first entry.
    pub fn set_section(&mut self, section: Section)
        ensures
            final(self)@ == with_section(old(self)@, section),
    {
        self.prev_section = self.section;
        self.section = section;
        self.selected_index = 0;
    }

    /// Moves to `section` and says so.
    pub fn navigate_to(&mut self, section: Section, now: u64)
        ensures
            final(self)@ == navigated(old(self)@, section, now),
    {
        self.set_section(section);
        let mut msg = String::new();
        push_str(&mut msg, "section: ");
        push_str(&mut msg, section_label(section));
        self.set_feedback(msg, now);
    }

    /// When the user is not signed in, moves to the sign-in panel and returns `true`;
    /// otherwise changes nothing and returns `false`.
    pub fn ensure_auth_required(&mut self, now: u64) -> (r: bool)
        ensures
            r == needs_auth(old(self)@),
            final(self)@ == if r {
                auth_required(old(self)@, now)
            } else {
                old(self)@
            },
    {
        if self.authenticated {
            return false;
        }
        self.prev_section = self.section;
        self.section = Section::Auth;
        self.auth_in_progress = false;
        self.say("auth required", now);
        true
    }

    /// Turns the setup hue by `step` degrees (the accent hue follows) and says so.
    pub fn bump_setup_hue(&mut self, step: i16, now: u64)
        requires
            wf(old(self)@),
        ensures
            final(self)@ == hue_bumped(old(self)@, step as int, now),
            wf(final(self)@),
    {
        let mut hue: i32 = self.setup_hue as i32 + step as i32;
        while hue < 0
            invariant
                hue < 360 + 32768,
                (hue - (self.setup_hue + step)) % 360 == 0,
            decreases 360 - hue,
        {
            hue += 360;
        }
        let h = (hue % 360) as u16;
        assert(h == bumped_hue(self.setup_hue, step as int)) by {
            assert(h as int == hue % 360);
            assert((hue - (self.setup_hue + step)) % 360 == 0);
            assert(hue % 360 == (self.setup_hue + step) % 360) by (nonlinear_arith)
                requires (hue - (self.setup_hue + step)) % 360 == 0;
        }
        self.setup_hue = h;
        self.accent_hue = h;
        let mut msg = String::new();
        push_str(&mut msg, "accent hue ");
        push_decimal(&mut msg, h as u64);
        self.set_feedback(msg, now);
    }

    /// The number of entries of the list that the current section shows.
    pub fn list_len(&self) -> (n: usize)
        ensures
            n == list_len_spec(self@),
    {
        match self.section {
            Section::Playlists => self.playlists.len(),
            Section::Queue => match &self.queue {
                Some(q) => q.queue.len(),
                None => 0,
            },
            Section::Liked => self.liked_songs.len(),
            Section::PlaylistTracks => self.playlist_tracks.len(),
            Section::Search => self.search_items.len(),
            Section::Devices => self.devices.len(),
            _ => 0,
        }
    }
}

/// `now - d`, or `now` itself when that would fall below zero.
pub open spec fn back_from(now: u64, d: u64) -> u64 {
    if now >= d {
        (now - d) as u64
    } else {
        now
    }
}

/// The state before any configuration is read.
pub open spec fn blank_state(version: Seq<char>, now: u64) -> AppView {
    AppView {
        section: Section::NowPlaying,
        prev_section: Section::NowPlaying,
        status: idle_status(false),
        playback: None,
        playlists: Seq::empty(),
        playlist_tracks: Seq::empty(),
        selected_playlist: None,
        queue: None,
        liked_songs: Seq::empty(),
        search_query: Seq::empty(),
        search_items: Seq::empty(),
        devices: Seq::empty(),
        selected_index: 0,
        err: None,
        update_result: None,
        update_err: None,
        setup_client_id: Seq::empty(),
        setup_auto_open: false,
        accent_hue: DEFAULT_ACCENT_HUE,
        setup_hue: DEFAULT_ACCENT_HUE,
        animation_tick: 0,
        feedback: None,
        feedback_until: now,
        client: None,
        client_token: None,
        authenticated: false,
        auth_url: Seq::empty(),
        auth_in_progress: false,
        width: 0,
        height: 0,
        last_action_at: now,
        last_status_fetch: back_from(now, 5000),
        last_api_fetch: back_from(now, 10000),
        version,
    }
}

/// The state at start-up: the stored configuration (if it could be read) gives the client id
/// (trimmed) and the hue; without a client id the setup panel opens, and so it does when
/// `start_setup` asks for it. The user counts as signed in when the stored token is valid at
/// `now_secs`.
pub open spec fn initial_state(
    version: Seq<char>,
    start_setup: bool,
    config: Option<Config>,
    token: Option<Token>,
    now: u64,
    now_secs: u64,
) -> AppView {
    let base = blank_state(version, now);
    let configured = match config {
        Some(c) => {
            let cid = trim_spec(c.client_id@);
            let hue = (c.accent_hue % 360) as u16;
            let b = AppView { setup_client_id: cid, accent_hue: hue, setup_hue: hue, ..base };
            if cid.len() > 0 {
                AppView {
                    client: Some(cid),
                    client_token: token_view(token),
                    authenticated: token matches Some(t) && token_valid_at(t.expires_at, now_secs),
                    ..b
                }
            } else {
                AppView { section: Section::Setup, ..b }
            }
        },
        None => AppView { section: Section::Setup, ..base },
    };
    if start_setup {
        AppView {
            section: Section::Setup,
            setup_auto_open: true,
            setup_hue: configured.accent_hue,
            ..configured
        }
    } else {
        configured
    }
}

impl App {
    /// The state at start-up (see `initial_state`), at `now` on the monotonic clock and
    /// `now_secs` on the wall clock. A client, when there is one, holds the stored token.
    pub fn new(
        version: String,
        start_setup: bool,
        config: Option<Config>,
        token: Option<Token>,
        now: u64,
        now_secs: u64,
    ) -> (r: App)
        ensures
            r@ == initial_state(version@, start_setup, config, token, now, now_secs),
            wf(r@),
            r.api_client matches Some(c) ==> c.token == token,
    {
        let ghost tok = token;
        let mut app = App {
            section: Section::NowPlaying,
            prev_section: Section::NowPlaying,
            status: Status::idle(false),
            playback: None,
            playlists: Vec::new(),
            playlist_tracks: Vec::new(),
            selected_playlist: None,
            queue: None,
            liked_songs: Vec::new(),
            search_query: String::new(),
            search_items: Vec::new(),
            devices: Vec::new(),
            selected_index: 0,
            err: None,
            update_result: None,
            update_err: None,
            setup_client_id: String::new(),
            setup_auto_open: false,
            accent_hue: DEFAULT_ACCENT_HUE,
            setup_hue: DEFAULT_ACCENT_HUE,
            animation_tick: 0,
            feedback: None,
            feedback_until: now,
            api_client: None,
            authenticated: false,
            auth_url: String::new(),
            auth_in_progress: false,
            width: 0,
            height: 0,
            last_action_at: now,
            last_status_fetch: if now >= 5000 { now - 5000 } else { now },
            last_api_fetch: if now >= 10000 { now - 10000 } else { now },
            version,
        };
        assert(app@ =~= blank_state(app.version@, now));
        match config {
            Some(cfg) => {
                let client_id = trim(cfg.client_id.as_str());
                let hue = cfg.accent_hue % 360;
                app.setup_client_id = client_id.clone();
                app.accent_hue = hue;
                app.setup_hue = hue;
                if client_id.as_str().unicode_len() > 0 {
                    let mut client = APIClient::new(client_id);
                    let valid = match &token {
                        Some(t) => now_secs < t.expires_at.saturating_sub(
                            crate::oauth::EXPIRY_MARGIN_SECS,
                        ),
                        None => false,
                    };
                    client.token = token;
                    app.authenticated = valid;
                    app.api_client = Some(client);
                } else {
                    app.section = Section::Setup;
                }
            },
            None => {
                app.section = Section::Setup;
            },
        }
        if start_setup {
            app.section = Section::Setup;
            app.setup_auto_open = true;
            app.setup_hue = app.accent_hue;
        }
        app
    }
}

} // verus!
