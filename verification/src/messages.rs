//! How the state takes in what background work reports, the outcome of an
//! effect, and the passing of time.

use vstd::prelude::*;

use crate::player::Status;
use crate::state::{
    effects_view, elapsed, with_feedback, with_section, App, AppView, Effect, EffectView,
    SearchItem, SearchItemView, Section,
};
use crate::strs::{decimal, push_decimal, push_str, trim, trim_spec};
use crate::text::{lowercase, to_lowercase};
use crate::transitions::{auth_begun, fresh_seed, some_fresh_seed};
use crate::types::{
    first_artist_name_spec, Artist, Device, PlaybackState, Playlist, QueueResponse, SearchResults,
    Track,
};
use crate::update::ResultInfo;

verus! {

/// What background work reports.
#[derive(Debug)]
pub enum AppMessage {
    Status(Status),
    Playlists(Vec<Playlist>),
    Queue(QueueResponse),
    Liked(Vec<Track>),
    PlaylistTracks(Vec<Track>),
    Playback(PlaybackState),
    Devices(Vec<Device>),
    Search(SearchResults),
    /// The outcome of a release check, and whether the user asked for it.
    Update(ResultInfo, bool),
    /// A failed release check, and whether the user asked for it.
    UpdateErr(String, bool),
    AuthComplete,
    /// A failed request, and whether it failed for want of a sign-in.
    Error(String, bool),
}

/// The search hit of a track: its name and first artist, in lowercase.
pub open spec fn track_hit(t: Track) -> SearchItemView {
    SearchItemView {
        kind: "track"@,
        name: lowercase(t.name@) + " - "@ + lowercase(first_artist_name_spec(t)),
        uri: t.uri@,
    }
}

/// The search hit of a playlist.
pub open spec fn playlist_hit(p: Playlist) -> SearchItemView {
    SearchItemView { kind: "playlist"@, name: lowercase(p.name@), uri: p.uri@ }
}

/// The search hit of an artist.
pub open spec fn artist_hit(a: Artist) -> SearchItemView {
    SearchItemView { kind: "artist"@, name: lowercase(a.name@), uri: a.uri@ }
}

/// The hits of the tracks that are present, in order.
pub open spec fn track_hits(s: Seq<Option<Track>>) -> Seq<SearchItemView>
    decreases s.len(),
{
    if s.len() == 0 {
        Seq::empty()
    } else {
        track_hits(s.drop_last()) + match s.last() {
            Some(t) => seq![track_hit(t)],
            None => Seq::empty(),
        }
    }
}

/// The hits of the playlists that are present, in order.
pub open spec fn playlist_hits(s: Seq<Option<Playlist>>) -> Seq<SearchItemView>
    decreases s.len(),
{
    if s.len() == 0 {
        Seq::empty()
    } else {
        playlist_hits(s.drop_last()) + match s.last() {
            Some(p) => seq![playlist_hit(p)],
            None => Seq::empty(),
        }
    }
}

/// The hits of the artists that are present, in order.
pub open spec fn artist_hits(s: Seq<Option<Artist>>) -> Seq<SearchItemView>
    decreases s.len(),
{
    if s.len() == 0 {
        Seq::empty()
    } else {
        artist_hits(s.drop_last()) + match s.last() {
            Some(a) => seq![artist_hit(a)],
            None => Seq::empty(),
        }
    }
}

/// The hits of a search: tracks, then playlists, then artists; missing entries are skipped.
pub open spec fn search_hits(res: SearchResults) -> Seq<SearchItemView> {
    track_hits(res.tracks.items@) + playlist_hits(res.playlists.items@) + artist_hits(
        res.artists.items@,
    )
}

/// "loaded N ..." feedback.
pub open spec fn loaded_msg(n: nat, what: Seq<char>) -> Seq<char> {
    "loaded "@ + decimal(n) + what
}

/// The state after a message from background work, received at `now`.
pub open spec fn message_step(v: AppView, msg: AppMessage, now: u64) -> AppView {
    match msg {
        AppMessage::Status(s) => AppView { status: s@, last_status_fetch: now, ..v },
        AppMessage::Playlists(pl) => with_feedback(
            AppView { playlists: pl@, ..v },
            loaded_msg(pl@.len(), " playlists"@),
            now,
        ),
        AppMessage::Queue(q) => with_feedback(
            AppView { queue: Some(q), ..v },
            loaded_msg(q.queue@.len(), " queued tracks"@),
            now,
        ),
        AppMessage::Liked(t) => with_feedback(
            AppView { liked_songs: t@, ..v },
            loaded_msg(t@.len(), " liked tracks"@),
            now,
        ),
        AppMessage::PlaylistTracks(t) => with_feedback(
            AppView { playlist_tracks: t@, ..v },
            loaded_msg(t@.len(), " tracks"@),
            now,
        ),
        AppMessage::Playback(pb) => AppView { playback: Some(pb), last_api_fetch: now, ..v },
        AppMessage::Devices(d) => with_feedback(
            AppView { devices: d@, ..v },
            loaded_msg(d@.len(), " devices"@),
            now,
        ),
        AppMessage::Search(res) => {
            let hits = search_hits(res);
            with_feedback(
                AppView { search_items: hits, selected_index: 0, ..v },
                decimal(hits.len()) + " search matches"@,
                now,
            )
        },
        AppMessage::Update(r, manual) => {
            let v1 = if r.update_available {
                with_feedback(v, "upgrade available: "@ + r.latest@, now)
            } else if manual {
                with_feedback(v, "you are up to date"@, now)
            } else {
                v
            };
            AppView { update_result: Some(r), update_err: None, ..v1 }
        },
        AppMessage::UpdateErr(e, manual) => if manual {
            with_feedback(AppView { update_err: Some(e@), ..v }, "update check failed"@, now)
        } else {
            v
        },
        AppMessage::AuthComplete => with_feedback(
            with_section(
                AppView { authenticated: true, auth_in_progress: false, ..v },
                Section::NowPlaying,
            ),
            "auth complete"@,
            now,
        ),
        AppMessage::Error(e, not_auth) => {
            let v1 = if not_auth {
                with_section(AppView { authenticated: false, ..v }, Section::Auth)
            } else {
                v
            };
            AppView { err: Some(e@), ..with_feedback(v1, "request failed"@, now) }
        },
    }
}

/// `n + 1`, wrapping to zero after the largest `u64`.
pub open spec fn wrapping_inc(n: u64) -> u64 {
    if n == u64::MAX {
        0
    } else {
        (n + 1) as u64
    }
}

/// How long after the last status the player is asked again, in milliseconds.
pub open spec fn status_refresh_ms() -> int {
    1000
}

/// How long after the last playback state the Web API is asked again, in milliseconds.
pub open spec fn playback_refresh_ms() -> int {
    5000
}

/// The state after a clock tick at `now`, and the refreshes to start.
pub open spec fn tick_step(v: AppView, now: u64) -> (AppView, Seq<EffectView>) {
    let v1 = AppView { animation_tick: wrapping_inc(v.animation_tick), ..v };
    let v2 = if v1.feedback is Some && now > v1.feedback_until {
        AppView { feedback: None, ..v1 }
    } else {
        v1
    };
    let e1: Seq<EffectView> = if elapsed(now, v.last_status_fetch) > status_refresh_ms() {
        seq![EffectView::FetchStatus]
    } else {
        Seq::empty()
    };
    let e2: Seq<EffectView> = if v.authenticated && elapsed(now, v.last_api_fetch)
        > playback_refresh_ms() && v.client is Some {
        seq![EffectView::FetchPlayback]
    } else {
        Seq::empty()
    };
    (v2, e1 + e2)
}

/// Where a sign-in asked for without a client goes on, given the stored configuration: with a
/// client for its (trimmed) client id and a sign-in, or with a request to set up.
pub open spec fn config_step(
    v: AppView,
    cfg: Option<Seq<char>>,
    now: u64,
    state: Seq<char>,
    verifier: Seq<char>,
) -> (AppView, Seq<EffectView>) {
    match cfg {
        Some(id) if trim_spec(id).len() > 0 => {
            let cid = trim_spec(id);
            let (v1, e) = auth_begun(
                AppView { client: Some(cid), client_token: None, ..v },
                state,
                verifier,
            );
            (v1, seq![EffectView::ConnectClient(cid)] + e)
        },
        _ => (
            with_feedback(
                AppView { err: Some("missing client_id in ~/.spotify-tui/config.json"@), ..v },
                "setup is required"@,
                now,
            ),
            Seq::empty(),
        ),
    }
}

/// The state after an effect that opens the browser: the error, or the success feedback.
pub open spec fn browser_step(v: AppView, outcome: Result<(), Seq<char>>, success: Seq<char>, now: u64) -> AppView {
    match outcome {
        Ok(_) => with_feedback(v, success, now),
        Err(e) => AppView { err: Some(e), ..v },
    }
}

fn owned(s: &str) -> (r: String)
    ensures
        r@ == s@,
{
    String::from_str(s)
}

fn item(kind: &str, name: String, uri: String) -> (r: SearchItem)
    ensures
        r@ == (SearchItemView { kind: kind@, name: name@, uri: uri@ }),
{
    SearchItem { kind: owned(kind), name, uri }
}

fn lowered(s: &String) -> (r: String)
    ensures
        r@ == lowercase(s@),
{
    to_lowercase(s.as_str())
}

fn push_track_hits(out: &mut Vec<SearchItem>, s: &Vec<Option<Track>>)
    ensures
        final(out)@.map_values(|i: SearchItem| i@) == old(out)@.map_values(|i: SearchItem| i@)
            + track_hits(s@),
{
    let mut i: usize = 0;
    while i < s.len()
        invariant
            i <= s@.len(),
            out@.map_values(|i: SearchItem| i@) == old(out)@.map_values(|i: SearchItem| i@)
                + track_hits(s@.take(i as int)),
        decreases s.len() - i,
    {
        let ghost before = out@;
        assert(s@.take(i + 1).drop_last() =~= s@.take(i as int));
        match &s[i] {
            Some(t) => {
                let mut name = lowered(&t.name);
                push_str(&mut name, " - ");
                let artist = t.first_artist_name();
                let la = lowered(&artist);
                push_str(&mut name, la.as_str());
                out.push(item("track", name, t.uri.clone()));
                assert(out@.map_values(|i: SearchItem| i@) =~= before.map_values(|i: SearchItem| i@).push(track_hit(*t)));
            },
            None => {},
        }
        i += 1;
        assert(out@.map_values(|i: SearchItem| i@) =~= old(out)@.map_values(|i: SearchItem| i@) + track_hits(s@.take(i as int)));
    }
    assert(s@.take(s@.len() as int) =~= s@);
}

fn push_playlist_hits(out: &mut Vec<SearchItem>, s: &Vec<Option<Playlist>>)
    ensures
        final(out)@.map_values(|i: SearchItem| i@) == old(out)@.map_values(|i: SearchItem| i@)
            + playlist_hits(s@),
{
    let mut i: usize = 0;
    while i < s.len()
        invariant
            i <= s@.len(),
            out@.map_values(|i: SearchItem| i@) == old(out)@.map_values(|i: SearchItem| i@)
                + playlist_hits(s@.take(i as int)),
        decreases s.len() - i,
    {
        let ghost before = out@;
        assert(s@.take(i + 1).drop_last() =~= s@.take(i as int));
        match &s[i] {
            Some(p) => {
                out.push(item("playlist", lowered(&p.name), p.uri.clone()));
                assert(out@.map_values(|i: SearchItem| i@) =~= before.map_values(|i: SearchItem| i@).push(playlist_hit(*p)));
            },
            None => {},
        }
        i += 1;
        assert(out@.map_values(|i: SearchItem| i@) =~= old(out)@.map_values(|i: SearchItem| i@) + playlist_hits(s@.take(i as int)));
    }
    assert(s@.take(s@.len() as int) =~= s@);
}

fn push_artist_hits(out: &mut Vec<SearchItem>, s: &Vec<Option<Artist>>)
    ensures
        final(out)@.map_values(|i: SearchItem| i@) == old(out)@.map_values(|i: SearchItem| i@)
            + artist_hits(s@),
{
    let mut i: usize = 0;
    while i < s.len()
        invariant
            i <= s@.len(),
            out@.map_values(|i: SearchItem| i@) == old(out)@.map_values(|i: SearchItem| i@)
                + artist_hits(s@.take(i as int)),
        decreases s.len() - i,
    {
        let ghost before = out@;
        assert(s@.take(i + 1).drop_last() =~= s@.take(i as int));
        match &s[i] {
            Some(a) => {
                out.push(item("artist", lowered(&a.name), a.uri.clone()));
                assert(out@.map_values(|i: SearchItem| i@) =~= before.map_values(|i: SearchItem| i@).push(artist_hit(*a)));
            },
            None => {},
        }
        i += 1;
        assert(out@.map_values(|i: SearchItem| i@) =~= old(out)@.map_values(|i: SearchItem| i@) + artist_hits(s@.take(i as int)));
    }
    assert(s@.take(s@.len() as int) =~= s@);
}

/// The search hits of `res` (see `search_hits`).
pub fn build_search_items(res: &SearchResults) -> (r: Vec<SearchItem>)
    ensures
        r@.map_values(|i: SearchItem| i@) == search_hits(*res),
{
    let mut items: Vec<SearchItem> = Vec::new();
    assert(items@.map_values(|i: SearchItem| i@) =~= Seq::<SearchItemView>::empty());
    push_track_hits(&mut items, &res.tracks.items);
    push_playlist_hits(&mut items, &res.playlists.items);
    push_artist_hits(&mut items, &res.artists.items);
    assert(items@.map_values(|i: SearchItem| i@) =~= search_hits(*res));
    items
}

fn loaded(n: usize, what: &str) -> (r: String)
    ensures
        r@ == loaded_msg(n as nat, what@),
{
    let mut m = owned("loaded ");
    push_decimal(&mut m, n as u64);
    push_str(&mut m, what);
    m
}

impl App {
    /// Takes in what background work reported, at `now`; see `message_step`.
    pub fn handle_message(&mut self, msg: AppMessage, now: u64)
        ensures
            final(self)@ == message_step(old(self)@, msg, now),
    {
        let ghost m = msg;
        match msg {
            AppMessage::Status(status) => {
                self.status = status;
                self.last_status_fetch = now;
            },
            AppMessage::Playlists(pl) => {
                let n = pl.len();
                self.playlists = pl;
                self.set_feedback(loaded(n, " playlists"), now);
            },
            AppMessage::Queue(q) => {
                let n = q.queue.len();
                self.queue = Some(q);
                self.set_feedback(loaded(n, " queued tracks"), now);
            },
            AppMessage::Liked(tracks) => {
                let n = tracks.len();
                self.liked_songs = tracks;
                self.set_feedback(loaded(n, " liked tracks"), now);
            },
            AppMessage::PlaylistTracks(tracks) => {
                let n = tracks.len();
                self.playlist_tracks = tracks;
                self.set_feedback(loaded(n, " tracks"), now);
            },
            AppMessage::Playback(pb) => {
                self.playback = Some(pb);
                self.last_api_fetch = now;
            },
            AppMessage::Devices(devs) => {
                let n = devs.len();
                self.devices = devs;
                self.set_feedback(loaded(n, " devices"), now);
            },
            AppMessage::Search(res) => {
                let items = build_search_items(&res);
                let total = items.len();
                self.search_items = items;
                self.selected_index = 0;
                let mut m = String::new();
                push_decimal(&mut m, total as u64);
                push_str(&mut m, " search matches");
                self.set_feedback(m, now);
            },
            AppMessage::Update(result, manual) => {
                if result.update_available {
                    let mut m = owned("upgrade available: ");
                    push_str(&mut m, result.latest.as_str());
                    self.set_feedback(m, now);
                } else if manual {
                    self.say("you are up to date", now);
                }
                self.update_result = Some(result);
                self.update_err = None;
            },
            AppMessage::UpdateErr(err, manual) => {
                if manual {
                    self.update_err = Some(err);
                    self.say("update check failed", now);
                }
            },
            AppMessage::AuthComplete => {
                self.authenticated = true;
                self.auth_in_progress = false;
                self.set_section(Section::NowPlaying);
                self.say("auth complete", now);
            },
            AppMessage::Error(err, not_auth) => {
                if not_auth {
                    self.authenticated = false;
                    self.set_section(Section::Auth);
                }
                self.say("request failed", now);
                self.err = Some(err);
            },
        }
    }

    /// Advances the clock to `now`: moves the animation, drops stale feedback, and asks for
    /// the refreshes that are due; see `tick_step`.
    pub fn on_tick(&mut self, now: u64) -> (r: Vec<Effect>)
        ensures
            final(self)@ == tick_step(old(self)@, now).0,
            effects_view(r@) == tick_step(old(self)@, now).1,
    {
        let ghost old_v = self@;
        self.animation_tick = self.animation_tick.wrapping_add(1);
        if self.feedback.is_some() && now > self.feedback_until {
            self.feedback = None;
        }
        let mut effects: Vec<Effect> = Vec::new();
        if now.saturating_sub(self.last_status_fetch) > 1000 {
            effects.push(Effect::FetchStatus);
        }
        if self.authenticated && now.saturating_sub(self.last_api_fetch) > 5000
            && self.api_client.is_some() {
            effects.push(Effect::FetchPlayback);
        }
        assert(effects_view(effects@) =~= tick_step(old_v, now).1);
        effects
    }

    /// Goes on with a sign-in that was asked for without a client, given the client id of the
    /// stored configuration (`None` when there is none); see `config_step`.
    pub fn auth_with_config(&mut self, client_id: Option<String>, now: u64) -> (r: KeyEffects)
        ensures
            fresh_seed(r.state@, r.verifier@),
            final(self)@ == config_step(old(self)@, client_id.deep_view(), now, r.state@, r.verifier@).0,
            effects_view(r.effects@) == config_step(old(self)@, client_id.deep_view(), now, r.state@, r.verifier@).1,
    {
        let ghost seed = some_fresh_seed();
        let cid = match &client_id {
            Some(id) => trim(id.as_str()),
            None => String::new(),
        };
        if client_id.is_some() && cid.as_str().unicode_len() > 0 {
            let connect = Effect::ConnectClient(cid.clone());
            self.api_client = Some(crate::oauth::APIClient::new(cid));
            let mut first: Vec<Effect> = Vec::new();
            first.push(connect);
            let (rest, st, ver) = self.begin_auth();
            let ghost a = first@;
            let ghost b = rest@;
            let mut rest = rest;
            first.append(&mut rest);
            assert(effects_view(first@) =~= effects_view(a) + effects_view(b));
            KeyEffects { effects: first, state: st, verifier: ver }
        } else {
            self.err = Some(owned("missing client_id in ~/.spotify-tui/config.json"));
            self.say("setup is required", now);
            let e: Vec<Effect> = Vec::new();
            assert(effects_view(e@) =~= Seq::<EffectView>::empty());
            KeyEffects { effects: e, state: Ghost(seed.0), verifier: Ghost(seed.1) }
        }
    }

    /// Takes in the outcome of opening the browser: the error text, or else `success` as
    /// feedback; see `browser_step`.
    pub fn on_browser_opened(&mut self, outcome: Result<(), String>, success: String, now: u64)
        ensures
            final(self)@ == browser_step(
                old(self)@,
                match outcome {
                    Ok(u) => Ok(u),
                    Err(e) => Err(e@),
                },
                success@,
                now,
            ),
    {
        match outcome {
            Ok(_) => self.set_feedback(success, now),
            Err(e) => self.err = Some(e),
        }
    }

    /// Records an error text, as when the desktop player refused a command.
    pub fn record_error(&mut self, err: String)
        ensures
            final(self)@ == (AppView { err: Some(err@), ..old(self)@ }),
    {
        self.err = Some(err);
    }
}

/// Effects and the fresh sign-in values used, if a sign-in was started.
pub struct KeyEffects {
    pub effects: Vec<Effect>,
    pub state: Ghost<Seq<char>>,
    pub verifier: Ghost<Seq<char>>,
}

} // verus!
