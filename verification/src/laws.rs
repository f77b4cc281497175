//! Properties of the interface's transitions that hold for every state and event.

use vstd::prelude::*;

use crate::form::{decode_query, lemma_query_round_trip, query_text};
use crate::messages::{message_step, tick_step, AppMessage};
use crate::oauth::{auth_query, auth_url_text, AUTH_URL};
use crate::player::PlayerCommand;
use crate::state::{bumped_hue, list_len_spec, wf, AppView, EffectView, Section};
use crate::text::truncate_spec;
use crate::transitions::{key_step, KeyCode, KeyInput};

verus! {

/// Whether an effect needs the Web API client.
pub open spec fn uses_client(e: EffectView) -> bool {
    match e {
        EffectView::FetchPlaylists | EffectView::FetchQueue | EffectView::FetchLiked
        | EffectView::FetchPlaylistTracks(_) | EffectView::FetchPlayback | EffectView::FetchDevices
        | EffectView::Search(_) | EffectView::StartPlayback(_, _) | EffectView::TransferDevice(_)
        | EffectView::SetShuffle(_) | EffectView::SetRepeat(_) | EffectView::StartAuthServer(_, _) => true,
        _ => false,
    }
}

/// A released key changes nothing, starts nothing and does not quit.
pub proof fn law_release_is_ignored(
    v: AppView,
    key: KeyInput,
    now: u64,
    updates_enabled: bool,
    state: Seq<char>,
    verifier: Seq<char>,
)
    requires
        key.release,
    ensures
        key_step(v, key, now, updates_enabled, state, verifier) == (v, false, Seq::<EffectView>::empty()),
{
}

/// Only `q` and Ctrl-C quit, outside the sign-in, setup and search panels; and a key that
/// quits changes nothing and starts nothing.
pub proof fn law_quit(
    v: AppView,
    key: KeyInput,
    now: u64,
    updates_enabled: bool,
    state: Seq<char>,
    verifier: Seq<char>,
)
    ensures
        ({
            let (w, quit, e) = key_step(v, key, now, updates_enabled, state, verifier);
            quit ==> {
                &&& !key.release
                &&& v.section != Section::Auth && v.section != Section::Setup && v.section
                    != Section::Search
                &&& key.code == KeyCode::Char('q') || (key.code == KeyCode::Char('c') && key.ctrl)
                &&& w == v
                &&& e.len() == 0
            }
        }),
{
}

/// Every key press keeps both hues below 360.
pub proof fn law_key_keeps_wf(
    v: AppView,
    key: KeyInput,
    now: u64,
    updates_enabled: bool,
    state: Seq<char>,
    verifier: Seq<char>,
)
    requires
        wf(v),
    ensures
        wf(key_step(v, key, now, updates_enabled, state, verifier).0),
{
}

/// Key presses keep the volume between 0 and 100 percent.
pub proof fn law_volume_stays_in_range(
    v: AppView,
    key: KeyInput,
    now: u64,
    updates_enabled: bool,
    state: Seq<char>,
    verifier: Seq<char>,
)
    requires
        0 <= v.status.volume <= 100,
    ensures
        0 <= key_step(v, key, now, updates_enabled, state, verifier).0.status.volume <= 100,
{
}

/// A key press only asks for Web API work when the state after it has a client.
pub proof fn law_api_work_needs_client(
    v: AppView,
    key: KeyInput,
    now: u64,
    updates_enabled: bool,
    state: Seq<char>,
    verifier: Seq<char>,
)
    ensures
        ({
            let (w, quit, e) = key_step(v, key, now, updates_enabled, state, verifier);
            forall|i: int| 0 <= i < e.len() && uses_client(#[trigger] e[i]) ==> w.client is Some
        }),
{
}

/// Moving up and down a list keeps the selection on an entry of that list.
pub proof fn law_moves_stay_in_list(
    v: AppView,
    code: KeyCode,
    now: u64,
    updates_enabled: bool,
    state: Seq<char>,
    verifier: Seq<char>,
)
    requires
        v.selected_index < list_len_spec(v),
        code == KeyCode::Up || code == KeyCode::Down || ((code == KeyCode::Char('j') || code
            == KeyCode::Char('k')) && v.section != Section::Search),
        v.section == Section::Playlists || v.section == Section::Queue || v.section
            == Section::Liked || v.section == Section::Search || v.section == Section::Devices
            || v.section == Section::PlaylistTracks,
    ensures
        ({
            let key = KeyInput { code, ctrl: false, release: false };
            let w = key_step(v, key, now, updates_enabled, state, verifier).0;
            &&& w.section == v.section
            &&& w.selected_index < list_len_spec(w)
        }),
{
}

/// Asking for a Web API panel while signed out opens the sign-in panel and sends nothing.
pub proof fn law_signed_out_lists_need_auth(
    v: AppView,
    c: char,
    now: u64,
    updates_enabled: bool,
    state: Seq<char>,
    verifier: Seq<char>,
)
    requires
        !v.authenticated,
        c == '2' || c == '3' || c == '4' || c == 'd' || c == '/',
        v.section == Section::NowPlaying || v.section == Section::Playlists || v.section
            == Section::Queue || v.section == Section::Liked || v.section == Section::Devices
            || v.section == Section::PlaylistTracks || v.section == Section::Help,
    ensures
        ({
            let key = KeyInput { code: KeyCode::Char(c), ctrl: false, release: false };
            let (w, quit, e) = key_step(v, key, now, updates_enabled, state, verifier);
            &&& w.section == Section::Auth
            &&& !quit
            &&& e.len() == 0
        }),
{
}

/// Turning the setup hue one way and then back restores it.
pub proof fn law_hue_turn_undone(h: u16, step: int)
    requires
        h < 360,
        -360 < step < 360,
    ensures
        bumped_hue(bumped_hue(h, step), -step) == h,
        bumped_hue(h, step) < 360,
{
}

/// A failed request for want of a sign-in signs the user out and shows the sign-in panel.
pub proof fn law_not_authenticated_error_signs_out(v: AppView, err: String, now: u64)
    ensures
        ({
            let w = message_step(v, AppMessage::Error(err, true), now);
            &&& !w.authenticated
            &&& w.section == Section::Auth
            &&& w.err == Some(err@)
        }),
{
}

/// A finished sign-in signs the user in and shows the now-playing panel.
pub proof fn law_auth_complete_signs_in(v: AppView, now: u64)
    ensures
        ({
            let w = message_step(v, AppMessage::AuthComplete, now);
            &&& w.authenticated
            &&& !w.auth_in_progress
            &&& w.section == Section::NowPlaying
        }),
{
}

/// Messages keep both hues below 360.
pub proof fn law_message_keeps_wf(v: AppView, msg: AppMessage, now: u64)
    requires
        wf(v),
    ensures
        wf(message_step(v, msg, now)),
{
}

/// Feedback stays until its deadline and is gone at the first tick after it.
pub proof fn law_feedback_expires(v: AppView, now: u64)
    ensures
        now > v.feedback_until ==> tick_step(v, now).0.feedback is None,
        now <= v.feedback_until ==> tick_step(v, now).0.feedback == v.feedback,
        wf(v) ==> wf(tick_step(v, now).0),
{
}

/// The authorization URL is the endpoint, `?`, and a query that reads back as exactly the
/// seven pairs of the request, in order.
pub proof fn law_auth_url_decodes(client_id: Seq<char>, state: Seq<char>, challenge: Seq<char>)
    ensures
        auth_url_text(client_id, state, challenge) == AUTH_URL@ + "?"@ + query_text(
            auth_query(client_id, state, challenge),
        ),
        decode_query(query_text(auth_query(client_id, state, challenge))) == auth_query(
            client_id,
            state,
            challenge,
        ),
{
    reveal(auth_url_text);
    lemma_query_round_trip(auth_query(client_id, state, challenge));
}

/// Shortening an already shortened text to the same length changes nothing.
pub proof fn law_truncate_idempotent(s: Seq<char>, n: nat)
    ensures
        truncate_spec(truncate_spec(s, n), n) == truncate_spec(s, n),
{
}

/// Going back from the device and playlist-track panels, and from the search and sign-in
/// panels, returns to the section before, which in turn remembers the one left.
pub proof fn law_back_returns(
    v: AppView,
    code: KeyCode,
    now: u64,
    updates_enabled: bool,
    state: Seq<char>,
    verifier: Seq<char>,
)
    requires
        code == KeyCode::Esc,
        v.section == Section::Devices || v.section == Section::PlaylistTracks || v.section
            == Section::Search || v.section == Section::Auth,
    ensures
        ({
            let key = KeyInput { code, ctrl: false, release: false };
            let (w, quit, e) = key_step(v, key, now, updates_enabled, state, verifier);
            &&& w.section == v.prev_section
            &&& w.prev_section == v.section
            &&& w.selected_index == 0
            &&& !quit
            &&& e.len() == 0
        }),
{
}

/// Typing into the search field drops the results of the last search.
pub proof fn law_typing_resets_search(
    v: AppView,
    c: char,
    now: u64,
    updates_enabled: bool,
    state: Seq<char>,
    verifier: Seq<char>,
)
    requires
        v.section == Section::Search,
        !crate::strs::is_control_spec(c),
    ensures
        ({
            let key = KeyInput { code: KeyCode::Char(c), ctrl: false, release: false };
            let (w, quit, e) = key_step(v, key, now, updates_enabled, state, verifier);
            &&& w.search_query == v.search_query.push(c)
            &&& w.search_items.len() == 0
            &&& w.selected_index == 0
            &&& !quit
            &&& e.len() == 0
        }),
{
}

/// Each clock tick asks for the player's status once more than a second has passed since the
/// last one, signed in or not; it asks for the Web API's playback state once more than five
/// seconds have passed, and only when signed in with a client. It asks for nothing else.
pub proof fn law_tick_refreshes(v: AppView, now: u64)
    ensures
        ({
            let e = tick_step(v, now).1;
            &&& (e.contains(EffectView::FetchStatus) <==> now > v.last_status_fetch + 1000)
            &&& (e.contains(EffectView::FetchPlayback) <==> (v.authenticated && v.client is Some
                && now > v.last_api_fetch + 5000))
            &&& forall|i: int|
                0 <= i < e.len() ==> #[trigger] e[i] == EffectView::FetchStatus || e[i]
                    == EffectView::FetchPlayback
        }),
{
    let e = tick_step(v, now).1;
    if now > v.last_status_fetch + 1000 {
        assert(e[0] == EffectView::FetchStatus);
    }
    if v.authenticated && v.client is Some && now > v.last_api_fetch + 5000 {
        assert(e[e.len() - 1] == EffectView::FetchPlayback);
    }
}

/// Enter on a list entry, signed in with a client, acts on the selected entry and leaves the
/// state as it is: a search hit of kind `track` plays that track by its URI; any other hit
/// plays as a context (playlist or artist); a track of a playlist, of the queue or of the liked
/// songs plays by its URI; a device takes over the playback.
pub proof fn law_enter_plays_selection(
    v: AppView,
    now: u64,
    updates_enabled: bool,
    state: Seq<char>,
    verifier: Seq<char>,
)
    requires
        v.authenticated,
        v.client is Some,
    ensures
        ({
            let key = KeyInput { code: KeyCode::Enter, ctrl: false, release: false };
            let (w, quit, e) = key_step(v, key, now, updates_enabled, state, verifier);
            let sel = v.selected_index as int;
            &&& !quit
            &&& (v.section == Section::Search && sel < v.search_items.len() ==> {
                let item = v.search_items[sel];
                &&& w == v
                &&& (item.kind == "track"@ ==> e == seq![
                    EffectView::StartPlayback(seq![item.uri], Seq::empty()),
                ])
                &&& (item.kind != "track"@ ==> e == seq![
                    EffectView::StartPlayback(Seq::empty(), item.uri),
                ])
            })
            &&& (v.section == Section::PlaylistTracks && sel < v.playlist_tracks.len() ==> w == v
                && e == seq![
                EffectView::StartPlayback(seq![v.playlist_tracks[sel].uri@], Seq::empty()),
            ])
            &&& (v.section == Section::Liked && sel < v.liked_songs.len() ==> w == v && e == seq![
                EffectView::StartPlayback(seq![v.liked_songs[sel].uri@], Seq::empty()),
            ])
            &&& (v.section == Section::Queue && v.queue is Some && sel < v.queue->0.queue@.len()
                ==> w == v && e == seq![
                EffectView::StartPlayback(seq![v.queue->0.queue@[sel].uri@], Seq::empty()),
            ])
            &&& (v.section == Section::Devices && sel < v.devices.len() ==> w == v && e == seq![
                EffectView::TransferDevice(v.devices[sel].id@),
            ])
            &&& (v.section == Section::Playlists && sel < v.playlists.len() ==> {
                &&& w.section == Section::PlaylistTracks
                &&& w.selected_playlist == Some(v.playlists[sel])
                &&& e == seq![EffectView::FetchPlaylistTracks(v.playlists[sel].id@)]
            })
        }),
{
}

/// On the now-playing panel, once the last player action is at least 150 ms old, space
/// toggles play and pause, `n` or Right skips to the next track and `p` or Left goes back to
/// the previous one; each records the action's time, says what it did, and asks for a fresh
/// status. Sooner, such a key does nothing.
pub proof fn law_player_keys(
    v: AppView,
    code: KeyCode,
    now: u64,
    updates_enabled: bool,
    state: Seq<char>,
    verifier: Seq<char>,
)
    requires
        v.section == Section::NowPlaying,
    ensures
        ({
            let key = KeyInput { code, ctrl: false, release: false };
            let (w, quit, e) = key_step(v, key, now, updates_enabled, state, verifier);
            let ready = now >= v.last_action_at + 150;
            &&& (ready && code == KeyCode::Char(' ') ==> e == seq![
                EffectView::Player(PlayerCommand::PlayPause),
                EffectView::FetchStatus,
            ] && w.last_action_at == now && w.feedback == Some("play / pause"@))
            &&& (ready && (code == KeyCode::Char('n') || code == KeyCode::Right) ==> e == seq![
                EffectView::Player(PlayerCommand::NextTrack),
                EffectView::FetchStatus,
            ] && w.last_action_at == now && w.feedback == Some("next track"@))
            &&& (ready && (code == KeyCode::Char('p') || code == KeyCode::Left) ==> e == seq![
                EffectView::Player(PlayerCommand::PreviousTrack),
                EffectView::FetchStatus,
            ] && w.last_action_at == now && w.feedback == Some("previous track"@))
            &&& (!ready && now >= v.last_action_at && (code == KeyCode::Char(' ') || code
                == KeyCode::Char('n') || code == KeyCode::Right || code == KeyCode::Char('p')
                || code == KeyCode::Left) ==> w == v && e.len() == 0)
            &&& (code == KeyCode::Char(' ') || code == KeyCode::Char('n') || code == KeyCode::Right
                || code == KeyCode::Char('p') || code == KeyCode::Left ==> !quit)
        }),
{
}

/// A message that brings a list stores it in its own place and leaves the other lists, the
/// section and the selection as they were: playlists, the queue, the liked songs, the tracks
/// of a playlist, the devices, and the playback state.
pub proof fn law_loaded_lists_land_in_place(v: AppView, msg: AppMessage, now: u64)
    ensures
        ({
            let w = message_step(v, msg, now);
            let others_kept = |keep_playlists: bool, keep_queue: bool, keep_liked: bool, keep_tracks: bool, keep_devices: bool, keep_playback: bool|
                {
                    &&& w.section == v.section
                    &&& w.selected_index == v.selected_index
                    &&& (keep_playlists ==> w.playlists == v.playlists)
                    &&& (keep_queue ==> w.queue == v.queue)
                    &&& (keep_liked ==> w.liked_songs == v.liked_songs)
                    &&& (keep_tracks ==> w.playlist_tracks == v.playlist_tracks)
                    &&& (keep_devices ==> w.devices == v.devices)
                    &&& (keep_playback ==> w.playback == v.playback)
                };
            match msg {
                AppMessage::Playlists(p) => w.playlists == p@ && others_kept(false, true, true, true, true, true),
                AppMessage::Queue(q) => w.queue == Some(q) && others_kept(true, false, true, true, true, true),
                AppMessage::Liked(t) => w.liked_songs == t@ && others_kept(true, true, false, true, true, true),
                AppMessage::PlaylistTracks(t) => w.playlist_tracks == t@ && others_kept(true, true, true, false, true, true),
                AppMessage::Devices(d) => w.devices == d@ && others_kept(true, true, true, true, false, true),
                AppMessage::Playback(pb) => w.playback == Some(pb) && w.last_api_fetch == now
                    && others_kept(true, true, true, true, true, false),
                AppMessage::Status(st) => w.status == st@ && w.last_status_fetch == now
                    && others_kept(true, true, true, true, true, true),
                _ => true,
            }
        }),
{
}

} // verus!
