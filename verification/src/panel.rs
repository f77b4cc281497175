//! The text of the now-playing panel and of an empty grid.

use vstd::prelude::*;

use crate::player::Status;
use crate::strs::push_str;
use crate::text::{lowercase, to_lowercase, truncate, truncate_spec};
use crate::types::PlaybackState;

verus! {

/// The first line shown while the desktop player is not running.
pub const NOT_RUNNING_TITLE: &'static str = "spotify desktop app is not running";

/// The hint shown, after a blank line, while the desktop player is not running.
pub const NOT_RUNNING_HINT: &'static str = "start spotify, then press n or p";

/// The single line of a grid with no items yet.
pub const GRID_LOADING: &'static str = "loading...";

/// The texts of the now-playing panel while the player runs.
pub struct NowPlayingText {
    /// The track name, lower-cased and cut to the panel's width.
    pub track: String,
    /// The artist, lower-cased and cut to the panel's width.
    pub artist: String,
    /// The album, lower-cased and cut to the panel's width.
    pub album: String,
    /// `art: ` and the cover's URL lower-cased, cut to the panel's width, when there is one.
    pub art: Option<String>,
    /// `playing` or `paused`.
    pub state: String,
    /// `on`, `off`, or `?` when the playback state is unknown.
    pub shuffle: String,
    /// The repeat mode lower-cased, or `?` when the playback state is unknown.
    pub repeat: String,
}

/// The room for text in a panel `width` columns wide: two columns go to its border.
pub open spec fn text_width(width: u16) -> nat {
    if width >= 2 {
        (width - 2) as nat
    } else {
        0
    }
}

/// The shuffle word for the playback state `playback`.
pub open spec fn shuffle_word(playback: Option<PlaybackState>) -> Seq<char> {
    match playback {
        Some(p) => if p.shuffle_state {
            "on"@
        } else {
            "off"@
        },
        None => "?"@,
    }
}

/// The repeat word for the playback state `playback`.
pub open spec fn repeat_word(playback: Option<PlaybackState>) -> Seq<char> {
    match playback {
        Some(p) => lowercase(p.repeat_state@),
        None => "?"@,
    }
}

/// The texts of the now-playing panel, `width` columns wide, for the player's `status` and
/// the Web API's `playback` state; `None` while the player is not running.
pub fn now_playing_text(status: &Status, playback: &Option<PlaybackState>, width: u16) -> (r:
    Option<NowPlayingText>)
    ensures
        r is None <==> !status.is_running,
        r matches Some(t) ==> {
            let w = text_width(width);
            &&& t.track@ == truncate_spec(lowercase(status.track@), w)
            &&& t.artist@ == truncate_spec(lowercase(status.artist@), w)
            &&& t.album@ == truncate_spec(lowercase(status.album@), w)
            &&& (t.art is Some <==> status.album_art_url@.len() > 0)
            &&& (t.art matches Some(a) ==> a@ == truncate_spec(
                "art: "@ + lowercase(status.album_art_url@),
                w,
            ))
            &&& t.state@ == (if status.is_playing {
                "playing"@
            } else {
                "paused"@
            })
            &&& t.shuffle@ == shuffle_word(*playback)
            &&& t.repeat@ == repeat_word(*playback)
        },
{
    if !status.is_running {
        return None;
    }
    let w: usize = width.saturating_sub(2) as usize;
    let track = truncate(to_lowercase(status.track.as_str()).as_str(), w);
    let artist = truncate(to_lowercase(status.artist.as_str()).as_str(), w);
    let album = truncate(to_lowercase(status.album.as_str()).as_str(), w);
    let art = if status.album_art_url.as_str().unicode_len() > 0 {
        let mut line = String::from_str("art: ");
        let url = to_lowercase(status.album_art_url.as_str());
        push_str(&mut line, url.as_str());
        Some(truncate(line.as_str(), w))
    } else {
        None
    };
    let state = if status.is_playing {
        String::from_str("playing")
    } else {
        String::from_str("paused")
    };
    let (shuffle, repeat) = match playback {
        Some(p) => (
            if p.shuffle_state {
                String::from_str("on")
            } else {
                String::from_str("off")
            },
            to_lowercase(p.repeat_state.as_str()),
        ),
        None => (String::from_str("?"), String::from_str("?")),
    };
    Some(NowPlayingText { track, artist, album, art, state, shuffle, repeat })
}

} // verus!
