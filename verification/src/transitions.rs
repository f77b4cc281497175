//! How the state answers a key press, a message from a background task, and the
//! clock: each transition is a function from the abstract state and the event
//! to the next state and the effects to carry out.

use vstd::prelude::*;

use crate::oauth::{
    auth_url_text, generate_pkce, pkce_challenge, random_state, url_safe,
};
use crate::player::{PlayerCommand, StatusView};
use crate::state::{
    auth_required, effects_view, elapsed, hue_bumped, list_len_spec, navigated, needs_auth, wf,
    with_feedback, with_section, App, AppView, Effect, EffectView, Section, DASHBOARD_URL,
};
use crate::strs::{
    is_control, is_control_spec, push_signed_decimal, push_str, signed_decimal, str_eq,
    trim, trim_spec,
};
use crate::text::{lowercase, to_lowercase};
use crate::types::PlaybackState;

verus! {

/// A key of the keyboard, as the interface distinguishes them.
#[derive(Debug, Clone, Copy, PartialEq, Eq, Structural)]
pub enum KeyCode {
    Char(char),
    Enter,
    Esc,
    Backspace,
    Left,
    Right,
    Up,
    Down,
    /// Any other key.
    Other,
}

/// A key event: the key, whether Control was held, and whether the key was released.
#[derive(Debug, Clone, Copy, PartialEq, Eq, Structural)]
pub struct KeyInput {
    pub code: KeyCode,
    pub ctrl: bool,
    pub release: bool,
}

/// Whether the verifier and state of a sign-in are fresh: URL-safe and of the length that
/// 32 and 16 random bytes encode to.
pub open spec fn fresh_seed(state: Seq<char>, verifier: Seq<char>) -> bool {
    &&& state.len() == 22
    &&& url_safe(state)
    &&& verifier.len() == 43
    &&& url_safe(verifier)
}

/// The authorization URL for `client_id`, with `state` and the challenge of `verifier`.
pub open spec fn auth_url_for(client_id: Seq<char>, state: Seq<char>, verifier: Seq<char>) -> Seq<
    char,
> {
    auth_url_text(client_id, state, pkce_challenge(verifier))
}

/// Starts a sign-in with `state` and `verifier`: when there is a client, records the
/// authorization URL, opens it, and waits for the callback.
pub open spec fn auth_begun(v: AppView, state: Seq<char>, verifier: Seq<char>) -> (AppView, Seq<
    EffectView,
>) {
    match v.client {
        Some(cid) => {
            let url = auth_url_for(cid, state, verifier);
            (
                AppView { auth_url: url, auth_in_progress: true, ..v },
                seq![
                    EffectView::OpenBrowser(url, "opened spotify auth"@),
                    EffectView::StartAuthServer(state, verifier),
                ],
            )
        },
        None => (v, Seq::empty()),
    }
}

/// Goes back to the previous section and says so.
pub open spec fn went_back(v: AppView, now: u64) -> AppView {
    with_feedback(with_section(v, v.prev_section), "back"@, now)
}

/// Keys on the sign-in panel.
pub open spec fn auth_key(v: AppView, code: KeyCode, now: u64, state: Seq<char>, verifier: Seq<char>) -> (
    AppView,
    Seq<EffectView>,
) {
    if code == KeyCode::Char('q') || code == KeyCode::Esc || code == KeyCode::Char('b') {
        (went_back(v, now), Seq::empty())
    } else if code == KeyCode::Char('a') {
        if v.client is None {
            (v, seq![EffectView::LoadConfigForAuth])
        } else {
            auth_begun(v, state, verifier)
        }
    } else {
        (v, Seq::empty())
    }
}

/// `s` without its last character, if it has one.
pub open spec fn popped(s: Seq<char>) -> Seq<char> {
    if s.len() > 0 {
        s.drop_last()
    } else {
        s
    }
}

/// Saves the typed client id (trimmed) with the chosen hue, sets up the client, and starts a
/// sign-in.
pub open spec fn setup_saved(v: AppView, now: u64, state: Seq<char>, verifier: Seq<char>) -> (
    AppView,
    Seq<EffectView>,
) {
    let cid = trim_spec(v.setup_client_id);
    let v1 = AppView {
        accent_hue: v.setup_hue,
        client: Some(cid),
        client_token: None,
        authenticated: false,
        ..v
    };
    let v2 = with_section(with_feedback(v1, "saved setup"@, now), Section::Auth);
    let (v3, e) = auth_begun(v2, state, verifier);
    (v3, seq![EffectView::SaveConfig(cid, v.setup_hue), EffectView::ConnectClient(cid)] + e)
}

/// Keys on the setup panel.
pub open spec fn setup_key(
    v: AppView,
    code: KeyCode,
    now: u64,
    state: Seq<char>,
    verifier: Seq<char>,
) -> (AppView, Seq<EffectView>) {
    if code == KeyCode::Esc {
        (navigated(v, Section::NowPlaying, now), Seq::empty())
    } else if code == KeyCode::Enter {
        if trim_spec(v.setup_client_id).len() == 0 {
            (
                with_feedback(
                    AppView { err: Some("client_id required"@), ..v },
                    "client id is required"@,
                    now,
                ),
                Seq::empty(),
            )
        } else {
            setup_saved(v, now, state, verifier)
        }
    } else if code == KeyCode::Backspace {
        (AppView { setup_client_id: popped(v.setup_client_id), ..v }, Seq::empty())
    } else if code == KeyCode::Left {
        (hue_bumped(v, -1, now), Seq::empty())
    } else if code == KeyCode::Right {
        (hue_bumped(v, 1, now), Seq::empty())
    } else if code == KeyCode::Down {
        (hue_bumped(v, -10, now), Seq::empty())
    } else if code == KeyCode::Up {
        (hue_bumped(v, 10, now), Seq::empty())
    } else if code == KeyCode::Char('o') {
        (v, seq![EffectView::OpenBrowser(DASHBOARD_URL@, "opened spotify dashboard"@)])
    } else {
        match code {
            KeyCode::Char(c) => if is_control_spec(c) {
                (v, Seq::empty())
            } else {
                (AppView { setup_client_id: v.setup_client_id.push(c), ..v }, Seq::empty())
            },
            _ => (v, Seq::empty()),
        }
    }
}

/// Starts playback of one track URI.
pub open spec fn play_uri(uri: Seq<char>) -> EffectView {
    EffectView::StartPlayback(seq![uri], Seq::empty())
}

/// Enter on a list: opens or plays the selected entry.
pub open spec fn enter_step(v: AppView, now: u64) -> (AppView, Seq<EffectView>) {
    let sel = v.selected_index as int;
    let has_client = v.client is Some;
    match v.section {
        Section::Playlists => if needs_auth(v) {
            (auth_required(v, now), Seq::empty())
        } else if sel < v.playlists.len() {
            let pl = v.playlists[sel];
            (
                with_section(AppView { selected_playlist: Some(pl), ..v }, Section::PlaylistTracks),
                if has_client {
                    seq![EffectView::FetchPlaylistTracks(pl.id@)]
                } else {
                    Seq::empty()
                },
            )
        } else {
            (v, Seq::empty())
        },
        Section::PlaylistTracks => if needs_auth(v) {
            (auth_required(v, now), Seq::empty())
        } else if sel < v.playlist_tracks.len() && has_client {
            (v, seq![play_uri(v.playlist_tracks[sel].uri@)])
        } else {
            (v, Seq::empty())
        },
        Section::Queue => if needs_auth(v) {
            (auth_required(v, now), Seq::empty())
        } else {
            match v.queue {
                Some(q) => if sel < q.queue@.len() && has_client {
                    (v, seq![play_uri(q.queue@[sel].uri@)])
                } else {
                    (v, Seq::empty())
                },
                None => (v, Seq::empty()),
            }
        },
        Section::Liked => if needs_auth(v) {
            (auth_required(v, now), Seq::empty())
        } else if sel < v.liked_songs.len() && has_client {
            (v, seq![play_uri(v.liked_songs[sel].uri@)])
        } else {
            (v, Seq::empty())
        },
        Section::Search => if needs_auth(v) {
            (auth_required(v, now), Seq::empty())
        } else if sel < v.search_items.len() && has_client {
            let item = v.search_items[sel];
            if item.kind == "track"@ {
                (v, seq![play_uri(item.uri)])
            } else {
                (v, seq![EffectView::StartPlayback(Seq::empty(), item.uri)])
            }
        } else {
            (v, Seq::empty())
        },
        Section::Devices => if needs_auth(v) {
            (auth_required(v, now), Seq::empty())
        } else if sel < v.devices.len() && has_client {
            (v, seq![EffectView::TransferDevice(v.devices[sel].id@)])
        } else {
            (v, Seq::empty())
        },
        _ => (v, Seq::empty()),
    }
}

/// The message for the search that is missing its client.
pub open spec fn missing_client_msg() -> Seq<char> {
    "missing API client; configure ~/.spotify-tui/config.json"@
}

/// Keys on the search panel.
pub open spec fn search_key(v: AppView, code: KeyCode, now: u64) -> (AppView, Seq<EffectView>) {
    if code == KeyCode::Esc {
        (went_back(v, now), Seq::empty())
    } else if code == KeyCode::Enter {
        if v.search_items.len() > 0 && v.selected_index < v.search_items.len() {
            enter_step(v, now)
        } else {
            let q = trim_spec(v.search_query);
            if q.len() == 0 {
                (v, Seq::empty())
            } else if v.client is None {
                (AppView { err: Some(missing_client_msg()), ..v }, Seq::empty())
            } else {
                (with_feedback(v, "searching for "@ + lowercase(q), now), seq![EffectView::Search(q)])
            }
        }
    } else if code == KeyCode::Backspace {
        (
            AppView {
                search_query: popped(v.search_query),
                search_items: Seq::empty(),
                selected_index: 0,
                ..v
            },
            Seq::empty(),
        )
    } else if code == KeyCode::Up {
        (
            if v.selected_index > 0 {
                AppView { selected_index: (v.selected_index - 1) as usize, ..v }
            } else {
                v
            },
            Seq::empty(),
        )
    } else if code == KeyCode::Down {
        (
            if v.selected_index + 1 < v.search_items.len() {
                AppView { selected_index: (v.selected_index + 1) as usize, ..v }
            } else {
                v
            },
            Seq::empty(),
        )
    } else {
        match code {
            KeyCode::Char(c) => if is_control_spec(c) {
                (v, Seq::empty())
            } else {
                (
                    AppView {
                        search_query: v.search_query.push(c),
                        search_items: Seq::empty(),
                        selected_index: 0,
                        ..v
                    },
                    Seq::empty(),
                )
            },
            _ => (v, Seq::empty()),
        }
    }
}

/// The next repeat mode: off, then context, then track, then off again.
pub open spec fn next_repeat_spec(p: Option<PlaybackState>) -> Seq<char> {
    match p {
        None => "context"@,
        Some(pb) => if pb.repeat_state@ == "off"@ {
            "context"@
        } else if pb.repeat_state@ == "context"@ {
            "track"@
        } else {
            "off"@
        },
    }
}

/// Whether `key` is one of the keys that act in every section.
pub open spec fn is_global_key(key: KeyInput) -> bool {
    match key.code {
        KeyCode::Char(c) => c == 'q' || c == '1' || c == '2' || c == '3' || c == '4' || c == 'c'
            || c == '/' || c == 'd' || c == 'a' || c == 's' || c == 'r' || c == 'u' || c == '?'
            || c == 'h',
        _ => false,
    }
}

/// Opens a list section that loads from the Web API, when the user is signed in.
pub open spec fn opened_list(v: AppView, s: Section, loading: Seq<char>, fetch: EffectView, now: u64) -> (
    AppView,
    bool,
    Seq<EffectView>,
) {
    let v1 = navigated(v, s, now);
    if needs_auth(v1) {
        (auth_required(v1, now), false, Seq::empty())
    } else if v1.client is Some {
        (with_feedback(v1, loading, now), false, seq![fetch])
    } else {
        (v1, false, Seq::empty())
    }
}

/// The keys that act in every section: the state after, whether to quit, and the effects.
pub open spec fn global_key(v: AppView, key: KeyInput, now: u64, updates_enabled: bool) -> (
    AppView,
    bool,
    Seq<EffectView>,
) {
    let code = key.code;
    if code == KeyCode::Char('q') || (code == KeyCode::Char('c') && key.ctrl) {
        (v, true, Seq::empty())
    } else if code == KeyCode::Char('1') {
        (navigated(v, Section::NowPlaying, now), false, Seq::empty())
    } else if code == KeyCode::Char('2') {
        opened_list(v, Section::Playlists, "loading playlists"@, EffectView::FetchPlaylists, now)
    } else if code == KeyCode::Char('3') {
        opened_list(v, Section::Queue, "loading queue"@, EffectView::FetchQueue, now)
    } else if code == KeyCode::Char('4') {
        opened_list(v, Section::Liked, "loading liked songs"@, EffectView::FetchLiked, now)
    } else if code == KeyCode::Char('c') {
        (navigated(AppView { setup_hue: v.accent_hue, ..v }, Section::Setup, now), false, Seq::empty())
    } else if code == KeyCode::Char('/') {
        let v1 = navigated(v, Section::Search, now);
        if needs_auth(v1) {
            (auth_required(v1, now), false, Seq::empty())
        } else {
            (AppView { search_query: Seq::empty(), search_items: Seq::empty(), ..v1 }, false, Seq::empty())
        }
    } else if code == KeyCode::Char('d') {
        opened_list(v, Section::Devices, "loading devices"@, EffectView::FetchDevices, now)
    } else if code == KeyCode::Char('a') {
        (navigated(v, Section::Auth, now), false, Seq::empty())
    } else if code == KeyCode::Char('s') {
        if v.authenticated && v.client is Some {
            let next = match v.playback {
                Some(p) => !p.shuffle_state,
                None => true,
            };
            (
                with_feedback(v, "shuffle "@ + if next { "on"@ } else { "off"@ }, now),
                false,
                seq![EffectView::SetShuffle(next)],
            )
        } else {
            (v, false, Seq::empty())
        }
    } else if code == KeyCode::Char('r') {
        if v.authenticated && v.client is Some {
            let next = next_repeat_spec(v.playback);
            (with_feedback(v, "repeat "@ + next, now), false, seq![EffectView::SetRepeat(next)])
        } else {
            (v, false, Seq::empty())
        }
    } else if code == KeyCode::Char('u') {
        if updates_enabled {
            (
                with_feedback(v, "checking updates"@, now),
                false,
                seq![EffectView::CheckUpdates(true, true)],
            )
        } else {
            (v, false, Seq::empty())
        }
    } else {
        (navigated(v, Section::Help, now), false, Seq::empty())
    }
}

/// Whether `code` is one of the player keys of the now-playing panel, which are throttled.
pub open spec fn is_action_code(code: KeyCode) -> bool {
    ||| code == KeyCode::Char(' ')
    ||| code == KeyCode::Char('n')
    ||| code == KeyCode::Char('p')
    ||| code == KeyCode::Right
    ||| code == KeyCode::Left
    ||| code == KeyCode::Char('+')
    ||| code == KeyCode::Char('=')
    ||| code == KeyCode::Up
    ||| code == KeyCode::Char('-')
    ||| code == KeyCode::Char('_')
    ||| code == KeyCode::Down
}

/// The shortest time between two player keys, in milliseconds.
pub open spec fn action_throttle_ms() -> int {
    150
}

/// Sends `cmd` to the player, says `msg`, and asks for a fresh status.
pub open spec fn player_step(v: AppView, cmd: PlayerCommand, msg: Seq<char>, now: u64) -> (
    AppView,
    Seq<EffectView>,
) {
    (
        AppView { last_action_at: now, ..with_feedback(v, msg, now) },
        seq![EffectView::Player(cmd), EffectView::FetchStatus],
    )
}

/// Sets the player's volume to `vol` percent and says so.
pub open spec fn volume_step(v: AppView, vol: i32, now: u64) -> (AppView, Seq<EffectView>) {
    (
        AppView {
            status: StatusView { volume: vol, ..v.status },
            last_action_at: now,
            ..with_feedback(v, "volume "@ + signed_decimal(vol as int) + "%"@, now)
        },
        seq![EffectView::Player(PlayerCommand::SetVolume(vol))],
    )
}

/// Keys on the now-playing panel.
pub open spec fn now_playing_key(v: AppView, code: KeyCode, now: u64) -> (AppView, Seq<EffectView>) {
    let vol = v.status.volume;
    if is_action_code(code) && elapsed(now, v.last_action_at) < action_throttle_ms() {
        (v, Seq::empty())
    } else if code == KeyCode::Char(' ') {
        player_step(v, PlayerCommand::PlayPause, "play / pause"@, now)
    } else if code == KeyCode::Char('n') || code == KeyCode::Right {
        player_step(v, PlayerCommand::NextTrack, "next track"@, now)
    } else if code == KeyCode::Char('p') || code == KeyCode::Left {
        player_step(v, PlayerCommand::PreviousTrack, "previous track"@, now)
    } else if code == KeyCode::Char('+') || code == KeyCode::Char('=') || code == KeyCode::Up {
        if vol < 100 {
            volume_step(v, if vol + 10 > 100 { 100 } else { (vol + 10) as i32 }, now)
        } else {
            (v, Seq::empty())
        }
    } else if code == KeyCode::Char('-') || code == KeyCode::Char('_') || code == KeyCode::Down {
        if vol > 0 {
            volume_step(v, if vol - 10 < 0 { 0 } else { (vol - 10) as i32 }, now)
        } else {
            (v, Seq::empty())
        }
    } else {
        (v, Seq::empty())
    }
}

/// Moving through a list and opening its entries.
pub open spec fn list_move_key(v: AppView, code: KeyCode, now: u64) -> (AppView, Seq<EffectView>) {
    if code == KeyCode::Char('j') || code == KeyCode::Down {
        (
            if v.selected_index + 1 < list_len_spec(v) {
                AppView { selected_index: (v.selected_index + 1) as usize, ..v }
            } else {
                v
            },
            Seq::empty(),
        )
    } else if code == KeyCode::Char('k') || code == KeyCode::Up {
        (
            if v.selected_index > 0 {
                AppView { selected_index: (v.selected_index - 1) as usize, ..v }
            } else {
                v
            },
            Seq::empty(),
        )
    } else if code == KeyCode::Enter {
        enter_step(v, now)
    } else {
        (v, Seq::empty())
    }
}

/// Keys that act on the current section after the global keys.
pub open spec fn section_key(v: AppView, code: KeyCode, now: u64) -> (AppView, Seq<EffectView>) {
    match v.section {
        Section::NowPlaying => now_playing_key(v, code, now),
        Section::Playlists | Section::Queue | Section::Liked | Section::Search | Section::Devices
        | Section::PlaylistTracks => list_move_key(v, code, now),
        _ => (v, Seq::empty()),
    }
}

/// The answer to a key press: the state after, whether to quit, and the effects. `state` and
/// `verifier` are the random values a sign-in started by this key uses.
pub open spec fn key_step(
    v: AppView,
    key: KeyInput,
    now: u64,
    updates_enabled: bool,
    state: Seq<char>,
    verifier: Seq<char>,
) -> (AppView, bool, Seq<EffectView>) {
    if key.release {
        (v, false, Seq::empty())
    } else {
        match v.section {
            Section::Auth => {
                let (a, e) = auth_key(v, key.code, now, state, verifier);
                (a, false, e)
            },
            Section::Setup => {
                let (a, e) = setup_key(v, key.code, now, state, verifier);
                (a, false, e)
            },
            Section::Search => {
                let (a, e) = search_key(v, key.code, now);
                (a, false, e)
            },
            _ => if (v.section == Section::Devices || v.section == Section::PlaylistTracks) && (
            key.code == KeyCode::Esc || key.code == KeyCode::Char('b')) {
                (went_back(v, now), false, Seq::empty())
            } else if is_global_key(key) {
                global_key(v, key, now, updates_enabled)
            } else {
                let (a, e) = section_key(v, key.code, now);
                (a, false, e)
            },
        }
    }
}

// ---------------------------------------------------------------------------------------------
// Effect lists.
proof fn lemma_effects_view_concat(a: Seq<Effect>, b: Seq<Effect>)
    ensures
        effects_view(a + b) == effects_view(a) + effects_view(b),
{
    assert(effects_view(a + b) =~= effects_view(a) + effects_view(b));
}

fn no_effects() -> (r: Vec<Effect>)
    ensures
        effects_view(r@) == Seq::<EffectView>::empty(),
{
    let r: Vec<Effect> = Vec::new();
    assert(effects_view(r@) =~= Seq::<EffectView>::empty());
    r
}

fn one_effect(e: Effect) -> (r: Vec<Effect>)
    ensures
        effects_view(r@) == seq![e@],
{
    let mut r: Vec<Effect> = Vec::new();
    r.push(e);
    assert(effects_view(r@) =~= seq![e@]);
    r
}

fn two_effects(a: Effect, b: Effect) -> (r: Vec<Effect>)
    ensures
        effects_view(r@) == seq![a@, b@],
{
    let mut r: Vec<Effect> = Vec::new();
    r.push(a);
    r.push(b);
    assert(effects_view(r@) =~= seq![a@, b@]);
    r
}

fn join_effects(a: Vec<Effect>, b: Vec<Effect>) -> (r: Vec<Effect>)
    ensures
        effects_view(r@) == effects_view(a@) + effects_view(b@),
{
    let mut a = a;
    let mut b = b;
    let ghost a0 = a@;
    let ghost b0 = b@;
    a.append(&mut b);
    proof {
        lemma_effects_view_concat(a0, b0);
    }
    a
}

/// A verifier and state that are fresh in the sense of `fresh_seed`.
pub proof fn some_fresh_seed() -> (r: (Seq<char>, Seq<char>))
    ensures
        fresh_seed(r.0, r.1),
{
    (Seq::new(22, |i: int| 'A'), Seq::new(43, |i: int| 'A'))
}

/// The text of a fixed string, as an owned string.
fn owned(s: &str) -> (r: String)
    ensures
        r@ == s@,
{
    String::from_str(s)
}

/// The next repeat mode after the one that `p` reports: off, context, track, then off again.
pub fn next_repeat_state(p: Option<&PlaybackState>) -> (r: String)
    ensures
        r@ == next_repeat_spec(
            match p {
                Some(x) => Some(*x),
                None => None,
            },
        ),
{
    match p {
        None => owned("context"),
        Some(pb) => {
            if str_eq(pb.repeat_state.as_str(), "off") {
                owned("context")
            } else if str_eq(pb.repeat_state.as_str(), "context") {
                owned("track")
            } else {
                owned("off")
            }
        },
    }
}

/// Whether `code` is one of the throttled player keys of the now-playing panel.
pub fn is_action_key(code: KeyCode) -> (r: bool)
    ensures
        r == is_action_code(code),
{
    match code {
        KeyCode::Char(c) => c == ' ' || c == 'n' || c == 'p' || c == '+' || c == '=' || c == '-'
            || c == '_',
        KeyCode::Right | KeyCode::Left | KeyCode::Up | KeyCode::Down => true,
        _ => false,
    }
}

impl App {
    /// Starts a sign-in with a fresh verifier and state; see `auth_begun`.
    pub(crate) fn begin_auth(&mut self) -> (r: (Vec<Effect>, Ghost<Seq<char>>, Ghost<Seq<char>>))
        ensures
            fresh_seed(r.1@, r.2@),
            final(self)@ == auth_begun(old(self)@, r.1@, r.2@).0,
            effects_view(r.0@) == auth_begun(old(self)@, r.1@, r.2@).1,
    {
        let (verifier, challenge) = generate_pkce();
        let state = random_state();
        let ghost st = state@;
        let ghost ver = verifier@;
        let url = match &self.api_client {
            Some(client) => match client.get_auth_url(state.as_str(), challenge.as_str()) {
                Ok(u) => Some(u),
                Err(_) => Some(String::new()),
            },
            None => None,
        };
        match url {
            Some(u) => {
                self.auth_url = u.clone();
                self.auth_in_progress = true;
                let e = two_effects(
                    Effect::OpenBrowser(u, owned("opened spotify auth")),
                    Effect::StartAuthServer(state, verifier),
                );
                (e, Ghost(st), Ghost(ver))
            },
            None => (no_effects(), Ghost(st), Ghost(ver)),
        }
    }

    /// Goes back to the previous section and says so.
    fn go_back(&mut self, now: u64)
        ensures
            final(self)@ == went_back(old(self)@, now),
    {
        self.set_section(self.prev_section);
        self.say("back", now);
    }

    /// Keys on the sign-in panel; see `auth_key`.
    fn auth_panel_key(&mut self, code: KeyCode, now: u64) -> (r: (
        Vec<Effect>,
        Ghost<Seq<char>>,
        Ghost<Seq<char>>,
    ))
        ensures
            fresh_seed(r.1@, r.2@),
            final(self)@ == auth_key(old(self)@, code, now, r.1@, r.2@).0,
            effects_view(r.0@) == auth_key(old(self)@, code, now, r.1@, r.2@).1,
    {
        let ghost seed = some_fresh_seed();
        if code == KeyCode::Char('q') || code == KeyCode::Esc || code == KeyCode::Char('b') {
            self.go_back(now);
            (no_effects(), Ghost(seed.0), Ghost(seed.1))
        } else if code == KeyCode::Char('a') {
            if self.api_client.is_none() {
                (one_effect(Effect::LoadConfigForAuth), Ghost(seed.0), Ghost(seed.1))
            } else {
                self.begin_auth()
            }
        } else {
            (no_effects(), Ghost(seed.0), Ghost(seed.1))
        }
    }

    /// Keys on the setup panel; see `setup_key`.
    fn setup_panel_key(&mut self, code: KeyCode, now: u64) -> (r: (
        Vec<Effect>,
        Ghost<Seq<char>>,
        Ghost<Seq<char>>,
    ))
        requires
            wf(old(self)@),
        ensures
            wf(final(self)@),
            fresh_seed(r.1@, r.2@),
            final(self)@ == setup_key(old(self)@, code, now, r.1@, r.2@).0,
            effects_view(r.0@) == setup_key(old(self)@, code, now, r.1@, r.2@).1,
    {
        let ghost seed = some_fresh_seed();
        let ghost (s0, v0) = seed;
        if code == KeyCode::Esc {
            self.navigate_to(Section::NowPlaying, now);
            return (no_effects(), Ghost(s0), Ghost(v0));
        }
        if code == KeyCode::Enter {
            let client_id = trim(self.setup_client_id.as_str());
            if client_id.as_str().unicode_len() == 0 {
                self.err = Some(owned("client_id required"));
                self.say("client id is required", now);
                return (no_effects(), Ghost(s0), Ghost(v0));
            }
            self.accent_hue = self.setup_hue;
            let saved = Effect::SaveConfig(
                crate::state::Config { client_id: client_id.clone(), accent_hue: self.accent_hue },
            );
            let connect = Effect::ConnectClient(client_id.clone());
            self.api_client = Some(crate::oauth::APIClient::new(client_id));
            self.authenticated = false;
            self.say("saved setup", now);
            self.set_section(Section::Auth);
            let first = two_effects(saved, connect);
            let (rest, st, ver) = self.begin_auth();
            return (join_effects(first, rest), st, ver);
        }
        if code == KeyCode::Backspace {
            self.setup_client_id.pop();
            return (no_effects(), Ghost(s0), Ghost(v0));
        }
        if code == KeyCode::Left {
            self.bump_setup_hue(-1, now);
        } else if code == KeyCode::Right {
            self.bump_setup_hue(1, now);
        } else if code == KeyCode::Down {
            self.bump_setup_hue(-10, now);
        } else if code == KeyCode::Up {
            self.bump_setup_hue(10, now);
        } else if code == KeyCode::Char('o') {
            return (
                one_effect(Effect::OpenBrowser(owned(DASHBOARD_URL), owned("opened spotify dashboard"))),
                Ghost(s0),
                Ghost(v0),
            );
        } else {
            match code {
                KeyCode::Char(c) => {
                    if !is_control(c) {
                        self.setup_client_id.push(c);
                    }
                },
                _ => {},
            }
        }
        (no_effects(), Ghost(s0), Ghost(v0))
    }

    /// Enter on a list; see `enter_step`.
    fn handle_enter(&mut self, now: u64) -> (r: Vec<Effect>)
        ensures
            final(self)@ == enter_step(old(self)@, now).0,
            effects_view(r@) == enter_step(old(self)@, now).1,
    {
        let sel = self.selected_index;
        match self.section {
            Section::Playlists => {
                if self.ensure_auth_required(now) {
                    return no_effects();
                }
                if sel < self.playlists.len() {
                    let pl = self.playlists[sel].clone();
                    let id = pl.id.clone();
                    self.selected_playlist = Some(pl);
                    self.set_section(Section::PlaylistTracks);
                    if self.api_client.is_some() {
                        return one_effect(Effect::FetchPlaylistTracks(id));
                    }
                }
                no_effects()
            },
            Section::PlaylistTracks => {
                if self.ensure_auth_required(now) {
                    return no_effects();
                }
                if sel < self.playlist_tracks.len() && self.api_client.is_some() {
                    let uri = self.playlist_tracks[sel].uri.clone();
                    return self.play_one(uri);
                }
                no_effects()
            },
            Section::Queue => {
                if self.ensure_auth_required(now) {
                    return no_effects();
                }
                let uri = match &self.queue {
                    Some(q) => if sel < q.queue.len() {
                        Some(q.queue[sel].uri.clone())
                    } else {
                        None
                    },
                    None => None,
                };
                match uri {
                    Some(u) => if self.api_client.is_some() {
                        self.play_one(u)
                    } else {
                        no_effects()
                    },
                    None => no_effects(),
                }
            },
            Section::Liked => {
                if self.ensure_auth_required(now) {
                    return no_effects();
                }
                if sel < self.liked_songs.len() && self.api_client.is_some() {
                    let uri = self.liked_songs[sel].uri.clone();
                    return self.play_one(uri);
                }
                no_effects()
            },
            Section::Search => {
                if self.ensure_auth_required(now) {
                    return no_effects();
                }
                if sel < self.search_items.len() && self.api_client.is_some() {
                    let is_track = str_eq(self.search_items[sel].kind.as_str(), "track");
                    let uri = self.search_items[sel].uri.clone();
                    proof {
                        assert(self@.search_items[sel as int] == self.search_items@[sel as int]@);
                    }
                    if is_track {
                        return self.play_one(uri);
                    } else {
                        let none: Vec<String> = Vec::new();
                        assert(none.deep_view() =~= Seq::<Seq<char>>::empty());
                        return one_effect(Effect::StartPlayback(none, uri));
                    }
                }
                no_effects()
            },
            Section::Devices => {
                if self.ensure_auth_required(now) {
                    return no_effects();
                }
                if sel < self.devices.len() && self.api_client.is_some() {
                    let id = self.devices[sel].id.clone();
                    return one_effect(Effect::TransferDevice(id));
                }
                no_effects()
            },
            _ => no_effects(),
        }
    }

    /// The effect that plays the single track `uri`.
    fn play_one(&self, uri: String) -> (r: Vec<Effect>)
        ensures
            effects_view(r@) == seq![play_uri(uri@)],
    {
        let mut uris: Vec<String> = Vec::new();
        uris.push(uri);
        assert(uris.deep_view() =~= seq![uri@]);
        one_effect(Effect::StartPlayback(uris, String::new()))
    }

    /// Keys on the search panel; see `search_key`.
    fn search_panel_key(&mut self, code: KeyCode, now: u64) -> (r: Vec<Effect>)
        ensures
            final(self)@ == search_key(old(self)@, code, now).0,
            effects_view(r@) == search_key(old(self)@, code, now).1,
    {
        if code == KeyCode::Esc {
            self.go_back(now);
            return no_effects();
        }
        if code == KeyCode::Enter {
            if self.search_items.len() > 0 && self.selected_index < self.search_items.len() {
                return self.handle_enter(now);
            }
            let q = trim(self.search_query.as_str());
            if q.as_str().unicode_len() == 0 {
                return no_effects();
            }
            if self.api_client.is_none() {
                self.err = Some(owned("missing API client; configure ~/.spotify-tui/config.json"));
                return no_effects();
            }
            let mut msg = owned("searching for ");
            let lower = to_lowercase(q.as_str());
            push_str(&mut msg, lower.as_str());
            self.set_feedback(msg, now);
            return one_effect(Effect::Search(q));
        }
        if code == KeyCode::Backspace {
            self.search_query.pop();
            self.search_items = Vec::new();
            self.selected_index = 0;
            assert(self@.search_items =~= Seq::<crate::state::SearchItemView>::empty());
            return no_effects();
        }
        if code == KeyCode::Up {
            if self.selected_index > 0 {
                self.selected_index -= 1;
            }
            return no_effects();
        }
        if code == KeyCode::Down {
            if self.search_items.len() > 0 && self.selected_index < self.search_items.len() - 1 {
                self.selected_index += 1;
            }
            return no_effects();
        }
        match code {
            KeyCode::Char(c) => {
                if !is_control(c) {
                    self.search_query.push(c);
                    self.search_items = Vec::new();
                    self.selected_index = 0;
                    assert(self@.search_items =~= Seq::<crate::state::SearchItemView>::empty());
                }
            },
            _ => {},
        }
        no_effects()
    }

    /// Opens a list section that loads from the Web API; see `opened_list`.
    fn open_list(&mut self, s: Section, loading: &str, fetch: Effect, now: u64) -> (r: Vec<Effect>)
        ensures
            final(self)@ == opened_list(old(self)@, s, loading@, fetch@, now).0,
            effects_view(r@) == opened_list(old(self)@, s, loading@, fetch@, now).2,
    {
        self.navigate_to(s, now);
        if self.ensure_auth_required(now) {
            return no_effects();
        }
        if self.api_client.is_some() {
            self.say(loading, now);
            return one_effect(fetch);
        }
        no_effects()
    }

    /// The keys that act in every section; see `global_key`.
    fn global_panel_key(&mut self, key: KeyInput, now: u64, updates_enabled: bool) -> (r: (
        bool,
        Vec<Effect>,
    ))
        requires
            is_global_key(key),
            wf(old(self)@),
        ensures
            wf(final(self)@),
            final(self)@ == global_key(old(self)@, key, now, updates_enabled).0,
            r.0 == global_key(old(self)@, key, now, updates_enabled).1,
            effects_view(r.1@) == global_key(old(self)@, key, now, updates_enabled).2,
    {
        let code = key.code;
        if code == KeyCode::Char('q') || (code == KeyCode::Char('c') && key.ctrl) {
            return (true, no_effects());
        }
        if code == KeyCode::Char('1') {
            self.navigate_to(Section::NowPlaying, now);
            (false, no_effects())
        } else if code == KeyCode::Char('2') {
            (false, self.open_list(Section::Playlists, "loading playlists", Effect::FetchPlaylists, now))
        } else if code == KeyCode::Char('3') {
            (false, self.open_list(Section::Queue, "loading queue", Effect::FetchQueue, now))
        } else if code == KeyCode::Char('4') {
            (false, self.open_list(Section::Liked, "loading liked songs", Effect::FetchLiked, now))
        } else if code == KeyCode::Char('c') {
            self.setup_hue = self.accent_hue;
            self.navigate_to(Section::Setup, now);
            (false, no_effects())
        } else if code == KeyCode::Char('/') {
            self.navigate_to(Section::Search, now);
            if self.ensure_auth_required(now) {
                return (false, no_effects());
            }
            self.search_query = String::new();
            self.search_items = Vec::new();
            assert(self@.search_items =~= Seq::<crate::state::SearchItemView>::empty());
            (false, no_effects())
        } else if code == KeyCode::Char('d') {
            (false, self.open_list(Section::Devices, "loading devices", Effect::FetchDevices, now))
        } else if code == KeyCode::Char('a') {
            self.navigate_to(Section::Auth, now);
            (false, no_effects())
        } else if code == KeyCode::Char('s') {
            if self.authenticated && self.api_client.is_some() {
                let next = match &self.playback {
                    Some(p) => !p.shuffle_state,
                    None => true,
                };
                let mut msg = owned("shuffle ");
                if next {
                    push_str(&mut msg, "on");
                } else {
                    push_str(&mut msg, "off");
                }
                self.set_feedback(msg, now);
                (false, one_effect(Effect::SetShuffle(next)))
            } else {
                (false, no_effects())
            }
        } else if code == KeyCode::Char('r') {
            if self.authenticated && self.api_client.is_some() {
                let next = next_repeat_state(self.playback.as_ref());
                let mut msg = owned("repeat ");
                push_str(&mut msg, next.as_str());
                self.set_feedback(msg, now);
                (false, one_effect(Effect::SetRepeat(next)))
            } else {
                (false, no_effects())
            }
        } else if code == KeyCode::Char('u') {
            if updates_enabled {
                self.say("checking updates", now);
                (false, one_effect(Effect::CheckUpdates(true, true)))
            } else {
                (false, no_effects())
            }
        } else {
            self.navigate_to(Section::Help, now);
            (false, no_effects())
        }
    }

    /// Sends a player command, says so, and asks for a fresh status; see `player_step`.
    fn player_action(&mut self, cmd: PlayerCommand, msg: &str, now: u64) -> (r: Vec<Effect>)
        ensures
            final(self)@ == player_step(old(self)@, cmd, msg@, now).0,
            effects_view(r@) == player_step(old(self)@, cmd, msg@, now).1,
    {
        self.say(msg, now);
        self.last_action_at = now;
        two_effects(Effect::Player(cmd), Effect::FetchStatus)
    }

    /// Sets the volume and says so; see `volume_step`.
    fn set_volume_to(&mut self, vol: i32, now: u64) -> (r: Vec<Effect>)
        ensures
            final(self)@ == volume_step(old(self)@, vol, now).0,
            effects_view(r@) == volume_step(old(self)@, vol, now).1,
    {
        self.status.volume = vol;
        let mut msg = owned("volume ");
        push_signed_decimal(&mut msg, vol as i64);
        push_str(&mut msg, "%");
        self.set_feedback(msg, now);
        self.last_action_at = now;
        one_effect(Effect::Player(PlayerCommand::SetVolume(vol)))
    }

    /// Keys on the now-playing panel; see `now_playing_key`.
    fn now_playing_panel_key(&mut self, code: KeyCode, now: u64) -> (r: Vec<Effect>)
        ensures
            final(self)@ == now_playing_key(old(self)@, code, now).0,
            effects_view(r@) == now_playing_key(old(self)@, code, now).1,
    {
        if is_action_key(code) && now.saturating_sub(self.last_action_at) < 150 {
            return no_effects();
        }
        let vol = self.status.volume;
        if code == KeyCode::Char(' ') {
            self.player_action(PlayerCommand::PlayPause, "play / pause", now)
        } else if code == KeyCode::Char('n') || code == KeyCode::Right {
            self.player_action(PlayerCommand::NextTrack, "next track", now)
        } else if code == KeyCode::Char('p') || code == KeyCode::Left {
            self.player_action(PlayerCommand::PreviousTrack, "previous track", now)
        } else if code == KeyCode::Char('+') || code == KeyCode::Char('=') || code == KeyCode::Up {
            if vol < 100 {
                let new_vol = if vol + 10 > 100 { 100 } else { vol + 10 };
                self.set_volume_to(new_vol, now)
            } else {
                no_effects()
            }
        } else if code == KeyCode::Char('-') || code == KeyCode::Char('_') || code == KeyCode::Down {
            if vol > 0 {
                let new_vol = if vol - 10 < 0 { 0 } else { vol - 10 };
                self.set_volume_to(new_vol, now)
            } else {
                no_effects()
            }
        } else {
            no_effects()
        }
    }

    /// Moving through a list; see `list_move_key`.
    fn list_panel_key(&mut self, code: KeyCode, now: u64) -> (r: Vec<Effect>)
        ensures
            final(self)@ == list_move_key(old(self)@, code, now).0,
            effects_view(r@) == list_move_key(old(self)@, code, now).1,
    {
        if code == KeyCode::Char('j') || code == KeyCode::Down {
            let n = self.list_len();
            if n > 0 && self.selected_index < n - 1 {
                self.selected_index += 1;
            }
            no_effects()
        } else if code == KeyCode::Char('k') || code == KeyCode::Up {
            if self.selected_index > 0 {
                self.selected_index -= 1;
            }
            no_effects()
        } else if code == KeyCode::Enter {
            self.handle_enter(now)
        } else {
            no_effects()
        }
    }
}

/// The answer to a key press that the surrounding program acts on.
#[derive(Debug)]
pub struct KeyOutcome {
    /// Whether the program should end.
    pub quit: bool,
    /// The work to carry out, in order.
    pub effects: Vec<Effect>,
}

/// Whether `new`, `quit` and `effects` are the answer to `key` from `old`, when a sign-in it
/// starts uses `state` and `verifier`.
pub open spec fn key_answer(
    old: AppView,
    new: AppView,
    quit: bool,
    effects: Seq<EffectView>,
    key: KeyInput,
    now: u64,
    updates_enabled: bool,
    state: Seq<char>,
    verifier: Seq<char>,
) -> bool {
    let t = key_step(old, key, now, updates_enabled, state, verifier);
    &&& t.0 == new
    &&& t.1 == quit
    &&& t.2 == effects
}

impl App {
    /// Answers a key press at time `now`; `updates_enabled` says whether release checks are on.
    /// The state, the quit flag and the effects are those of `key_step`, for some fresh sign-in
    /// values (those that a started sign-in hands to `Effect::StartAuthServer`).
    pub fn handle_key(&mut self, key: KeyInput, now: u64, updates_enabled: bool) -> (r: KeyOutcome)
        requires
            wf(old(self)@),
        ensures
            wf(final(self)@),
            exists|state: Seq<char>, verifier: Seq<char>|
                #![trigger key_step(old(self)@, key, now, updates_enabled, state, verifier)]
                fresh_seed(state, verifier) && key_answer(
                    old(self)@,
                    final(self)@,
                    r.quit,
                    effects_view(r.effects@),
                    key,
                    now,
                    updates_enabled,
                    state,
                    verifier,
                ),
    {
        let ghost old_v = self@;
        let ghost seed = some_fresh_seed();
        if key.release {
            let r = KeyOutcome { quit: false, effects: no_effects() };
            assert(key_answer(old_v, self@, r.quit, effects_view(r.effects@), key, now, updates_enabled, seed.0, seed.1));
            return r;
        }
        match self.section {
            Section::Auth => {
                let (effects, st, ver) = self.auth_panel_key(key.code, now);
                let r = KeyOutcome { quit: false, effects };
                assert(key_answer(old_v, self@, r.quit, effects_view(r.effects@), key, now, updates_enabled, st@, ver@));
                r
            },
            Section::Setup => {
                let (effects, st, ver) = self.setup_panel_key(key.code, now);
                let r = KeyOutcome { quit: false, effects };
                assert(key_answer(old_v, self@, r.quit, effects_view(r.effects@), key, now, updates_enabled, st@, ver@));
                r
            },
            Section::Search => {
                let effects = self.search_panel_key(key.code, now);
                let r = KeyOutcome { quit: false, effects };
                assert(key_answer(old_v, self@, r.quit, effects_view(r.effects@), key, now, updates_enabled, seed.0, seed.1));
                r
            },
            _ => {
                let r = if (self.section == Section::Devices || self.section == Section::PlaylistTracks)
                    && (key.code == KeyCode::Esc || key.code == KeyCode::Char('b')) {
                    self.go_back(now);
                    KeyOutcome { quit: false, effects: no_effects() }
                } else if is_global(key) {
                    let (quit, effects) = self.global_panel_key(key, now, updates_enabled);
                    KeyOutcome { quit, effects }
                } else {
                    let effects = match self.section {
                        Section::NowPlaying => self.now_playing_panel_key(key.code, now),
                        Section::Playlists | Section::Queue | Section::Liked | Section::Search
                        | Section::Devices | Section::PlaylistTracks => self.list_panel_key(key.code, now),
                        _ => no_effects(),
                    };
                    KeyOutcome { quit: false, effects }
                };
                assert(key_answer(old_v, self@, r.quit, effects_view(r.effects@), key, now, updates_enabled, seed.0, seed.1));
                r
            },
        }
    }
}

/// Whether `key` is one of the keys that act in every section.
pub fn is_global(key: KeyInput) -> (r: bool)
    ensures
        r == is_global_key(key),
{
    match key.code {
        KeyCode::Char(c) => c == 'q' || c == '1' || c == '2' || c == '3' || c == '4' || c == 'c'
            || c == '/' || c == 'd' || c == 'a' || c == 's' || c == 'r' || c == 'u' || c == '?'
            || c == 'h',
        _ => false,
    }
}

} // verus!
