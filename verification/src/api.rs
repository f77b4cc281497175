//! Requests to the Spotify Web API: their paths, their bodies, and what an
//! answer means for the request that sent it.

use vstd::prelude::*;

use crate::error::ApiError;
use crate::strs::push_str;

verus! {

pub const API_BASE_URL: &'static str = "https://api.spotify.com/v1";

pub const PLAYLISTS_ENDPOINT: &'static str = "/me/playlists?limit=20";

pub const QUEUE_ENDPOINT: &'static str = "/me/player/queue";

pub const LIKED_ENDPOINT: &'static str = "/me/tracks?limit=20";

pub const PLAYER_ENDPOINT: &'static str = "/me/player";

pub const DEVICES_ENDPOINT: &'static str = "/me/player/devices";

pub const PLAY_ENDPOINT: &'static str = "/me/player/play";

/// Whether the byte `b` stands for itself in `application/x-www-form-urlencoded` text.
pub open spec fn form_unreserved(b: u8) -> bool {
    b == 42 || b == 45 || b == 46 || (48 <= b <= 57) || (65 <= b <= 90) || b == 95 || (97 <= b <= 122)
}

/// An upper-case hexadecimal digit.
pub open spec fn hex_upper(d: int) -> char {
    if d < 10 {
        (48 + d) as char
    } else {
        (55 + d) as char
    }
}

/// The form encoding of one byte: itself when unreserved, `+` for a space, else `%XX`.
pub open spec fn form_byte(b: u8) -> Seq<char> {
    if form_unreserved(b) {
        seq![b as char]
    } else if b == 32 {
        seq!['+']
    } else {
        seq!['%', hex_upper(b as int / 16), hex_upper(b as int % 16)]
    }
}

/// The `application/x-www-form-urlencoded` form of the bytes `bytes`.
pub open spec fn form_urlencoded(bytes: Seq<u8>) -> Seq<char>
    decreases bytes.len(),
{
    if bytes.len() == 0 {
        Seq::empty()
    } else {
        form_urlencoded(bytes.drop_last()) + form_byte(bytes.last())
    }
}

/// `url::form_urlencoded::byte_serialize` over the UTF-8 bytes of `s`, collected: each byte
/// encoded as `form_byte` says.
#[verifier::external_body]
fn form_urlencode(s: &str) -> (r: String)
    ensures
        r@ == form_urlencoded(vstd::utf8::encode_utf8(s@)),
{
    url::form_urlencoded::byte_serialize(s.as_bytes()).collect()
}

/// The URL of an endpoint path.
pub fn api_url(endpoint: &str) -> (r: String)
    ensures
        r@ == API_BASE_URL@ + endpoint@,
{
    let mut out = String::from_str(API_BASE_URL);
    push_str(&mut out, endpoint);
    out
}

/// The path of the tracks of a playlist.
pub fn playlist_tracks_endpoint(playlist_id: &str) -> (r: String)
    ensures
        r@ == "/playlists/"@ + playlist_id@ + "/tracks?limit=50"@,
{
    let mut out = String::from_str("/playlists/");
    push_str(&mut out, playlist_id);
    push_str(&mut out, "/tracks?limit=50");
    out
}

/// The path that turns shuffling on or off.
pub fn shuffle_endpoint(state: bool) -> (r: String)
    ensures
        r@ == "/me/player/shuffle?state="@ + if state { "true"@ } else { "false"@ },
{
    let mut out = String::from_str("/me/player/shuffle?state=");
    if state {
        push_str(&mut out, "true");
    } else {
        push_str(&mut out, "false");
    }
    out
}

/// The path that sets the repeat mode.
pub fn repeat_endpoint(state: &str) -> (r: String)
    ensures
        r@ == "/me/player/repeat?state="@ + form_urlencoded(vstd::utf8::encode_utf8(state@)),
{
    let mut out = String::from_str("/me/player/repeat?state=");
    let enc = form_urlencode(state);
    push_str(&mut out, enc.as_str());
    out
}

/// The path of a search for tracks, playlists and artists.
pub fn search_endpoint(query: &str) -> (r: String)
    ensures
        r@ == "/search?type=track,playlist,artist&limit=10&q="@ + form_urlencoded(
            vstd::utf8::encode_utf8(query@),
        ),
{
    let mut out = String::from_str("/search?type=track,playlist,artist&limit=10&q=");
    let enc = form_urlencode(query);
    push_str(&mut out, enc.as_str());
    out
}

/// The body that starts playback: the track URIs when there are any, the context URI when it
/// is not empty.
#[derive(Debug)]
pub struct PlaybackBody {
    pub uris: Option<Vec<String>>,
    pub context_uri: Option<String>,
}

/// The body of a request to start playback.
pub fn start_playback_body(uris: Vec<String>, context_uri: String) -> (r: PlaybackBody)
    ensures
        uris@.len() > 0 ==> r.uris == Some(uris),
        uris@.len() == 0 ==> r.uris is None,
        context_uri@.len() > 0 ==> r.context_uri == Some(context_uri),
        context_uri@.len() == 0 ==> r.context_uri is None,
{
    let u = if uris.len() > 0 {
        Some(uris)
    } else {
        None
    };
    let c = if context_uri.as_str().unicode_len() > 0 {
        Some(context_uri)
    } else {
        None
    };
    PlaybackBody { uris: u, context_uri: c }
}

/// The body that moves playback to a device and plays.
#[derive(Debug)]
pub struct TransferBody {
    pub device_ids: Vec<String>,
    pub play: bool,
}

/// The body of a request to move playback to `device_id`.
pub fn transfer_body(device_id: String) -> (r: TransferBody)
    ensures
        r.device_ids@ == seq![device_id],
        r.play,
{
    let mut ids: Vec<String> = Vec::new();
    ids.push(device_id);
    TransferBody { device_ids: ids, play: true }
}

/// What to do with the answer to a request.
#[derive(Debug)]
pub enum ResponseStep {
    /// The token was refused: refresh it and send the request again.
    RefreshAndRetry,
    /// The request failed.
    Failed(ApiError),
    /// The request succeeded; this is the body.
    Succeeded(String),
}

/// What the answer with HTTP status `status` and body `body` means: a refused token asks for a
/// refresh, a status outside 200..=299 is a failure carrying the body, anything else a success.
pub fn classify_response(status: u16, body: String) -> (r: ResponseStep)
    ensures
        status == 401 ==> r is RefreshAndRetry,
        status != 401 && !(200 <= status <= 299) ==> (r matches ResponseStep::Failed(
            ApiError::Request(m),
        ) && m == body),
        200 <= status <= 299 ==> r == ResponseStep::Succeeded(body),
{
    if status == 401 {
        ResponseStep::RefreshAndRetry
    } else if status < 200 || status > 299 {
        ResponseStep::Failed(ApiError::Request(body))
    } else {
        ResponseStep::Succeeded(body)
    }
}

} // verus!
