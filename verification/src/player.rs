//! The desktop player, driven through AppleScript: the commands, the scripts
//! that carry them, and the reading of the status that the player reports.

use vstd::prelude::*;

use crate::strs::{
    chars_of, parse_i32, parse_i32_spec, push_signed_decimal, signed_decimal, str_eq,
    string_of, trim, trim_spec,
};

verus! {

/// What the desktop player reports. Times are milliseconds.
#[derive(Debug, Default)]
pub struct Status {
    pub is_running: bool,
    pub is_playing: bool,
    pub track: String,
    pub artist: String,
    pub album: String,
    pub duration_ms: u64,
    pub position_ms: u64,
    pub volume: i32,
    pub album_art_url: String,
}

/// The abstract form of a status, with texts as characters.
pub struct StatusView {
    pub is_running: bool,
    pub is_playing: bool,
    pub track: Seq<char>,
    pub artist: Seq<char>,
    pub album: Seq<char>,
    pub duration_ms: u64,
    pub position_ms: u64,
    pub volume: i32,
    pub album_art_url: Seq<char>,
}

impl View for Status {
    type V = StatusView;

    open spec fn view(&self) -> StatusView {
        StatusView {
            is_running: self.is_running,
            is_playing: self.is_playing,
            track: self.track@,
            artist: self.artist@,
            album: self.album@,
            duration_ms: self.duration_ms,
            position_ms: self.position_ms,
            volume: self.volume,
            album_art_url: self.album_art_url@,
        }
    }
}

/// The status of a player that reports nothing: not running, with no track.
pub open spec fn idle_status(running: bool) -> StatusView {
    StatusView {
        is_running: running,
        is_playing: false,
        track: Seq::empty(),
        artist: Seq::empty(),
        album: Seq::empty(),
        duration_ms: 0,
        position_ms: 0,
        volume: 0,
        album_art_url: Seq::empty(),
    }
}

impl Status {
    /// The status of a player that reports nothing but whether it runs.
    pub fn idle(running: bool) -> (r: Status)
        ensures
            r@ == idle_status(running),
    {
        Status {
            is_running: running,
            is_playing: false,
            track: String::new(),
            artist: String::new(),
            album: String::new(),
            duration_ms: 0,
            position_ms: 0,
            volume: 0,
            album_art_url: String::new(),
        }
    }
}

/// A command for the desktop player.
#[derive(Debug, Clone, Copy, PartialEq, Eq, Structural)]
pub enum PlayerCommand {
    PlayPause,
    NextTrack,
    PreviousTrack,
    /// Set the sound volume, in percent.
    SetVolume(i32),
}

/// The script that asks whether the desktop player runs.
pub const RUNNING_SCRIPT: &'static str = "application \"Spotify\" is running";

/// The script that reads the track, the position, the state, the volume and the artwork of the
/// desktop player, joined by `|||`.
pub const STATUS_SCRIPT: &'static str = "
    tell application \"Spotify\"
        set tName to name of current track
        set tArtist to artist of current track
        set tAlbum to album of current track
        set tDur to duration of current track
        set tPos to player position
        set pState to player state
        set tVol to sound volume
        set tUrl to artwork url of current track
        return tName & \"|||\" & tArtist & \"|||\" & tAlbum & \"|||\" & tDur & \"|||\" & tPos & \"|||\" & pState & \"|||\" & tVol & \"|||\" & tUrl
    end tell
    ";

/// The script that carries a command.
pub open spec fn command_script_spec(cmd: PlayerCommand) -> Seq<char> {
    match cmd {
        PlayerCommand::PlayPause => "tell application \"Spotify\" to playpause"@,
        PlayerCommand::NextTrack => "tell application \"Spotify\" to next track"@,
        PlayerCommand::PreviousTrack => "tell application \"Spotify\" to previous track"@,
        PlayerCommand::SetVolume(v) => "tell application \"Spotify\" to set sound volume to "@
            + signed_decimal(v as int),
    }
}

/// The AppleScript that carries `cmd` to the desktop player.
pub fn command_script(cmd: PlayerCommand) -> (r: String)
    ensures
        r@ == command_script_spec(cmd),
{
    match cmd {
        PlayerCommand::PlayPause => String::from_str("tell application \"Spotify\" to playpause"),
        PlayerCommand::NextTrack => String::from_str("tell application \"Spotify\" to next track"),
        PlayerCommand::PreviousTrack => String::from_str(
            "tell application \"Spotify\" to previous track",
        ),
        PlayerCommand::SetVolume(v) => {
            let mut out = String::from_str("tell application \"Spotify\" to set sound volume to ");
            push_signed_decimal(&mut out, v as i64);
            out
        },
    }
}

/// Whether the answer to `RUNNING_SCRIPT` says that the player runs.
pub fn running_from_output(out: &str) -> (r: bool)
    ensures
        r == (trim_spec(out@) == "true"@),
{
    let t = trim(out);
    str_eq(t.as_str(), "true")
}

/// The pieces of `s` between the separators `|||`, as `str::split("|||")` gives them.
pub open spec fn split_fields(s: Seq<char>) -> Seq<Seq<char>>
    decreases s.len(),
{
    if s.len() == 0 {
        seq![Seq::empty()]
    } else if s.len() >= 3 && s[0] == '|' && s[1] == '|' && s[2] == '|' {
        seq![Seq::<char>::empty()] + split_fields(s.skip(3))
    } else {
        let r = split_fields(s.drop_first());
        r.update(0, seq![s[0]] + r[0])
    }
}

proof fn lemma_split_fields_nonempty(s: Seq<char>)
    ensures
        split_fields(s).len() >= 1,
    decreases s.len(),
{
    if s.len() == 0 {
    } else if s.len() >= 3 && s[0] == '|' && s[1] == '|' && s[2] == '|' {
        lemma_split_fields_nonempty(s.skip(3));
    } else {
        lemma_split_fields_nonempty(s.drop_first());
    }
}

/// Splits `v` at every `|||`.
pub fn split_on_bars(v: &[char]) -> (parts: Vec<Vec<char>>)
    ensures
        parts@.len() == split_fields(v@).len(),
        forall|i: int| 0 <= i < parts@.len() ==> #[trigger] parts@[i]@ == split_fields(v@)[i],
{
    let mut done: Vec<Vec<char>> = Vec::new();
    let mut cur: Vec<char> = Vec::new();
    let mut i: usize = 0;
    proof {
        lemma_split_fields_nonempty(v@);
        assert(v@.skip(0) =~= v@);
        let r = split_fields(v@);
        assert(r.update(0, Seq::<char>::empty() + r[0]) =~= r);
    }
    while i < v.len()
        invariant
            i <= v@.len(),
            ({
                let r = split_fields(v@.skip(i as int));
                &&& r.len() >= 1
                &&& split_fields(v@) =~= done@.map_values(|p: Vec<char>| p@) + r.update(
                    0,
                    cur@ + r[0],
                )
            }),
        decreases v.len() - i,
    {
        let ghost rest = v@.skip(i as int);
        if v.len() - i >= 3 && v[i] == '|' && v[i + 1] == '|' && v[i + 2] == '|' {
            proof {
                assert(rest[0] == '|' && rest[1] == '|' && rest[2] == '|');
                assert(rest.skip(3) =~= v@.skip(i + 3));
                lemma_split_fields_nonempty(v@.skip(i + 3));
            }
            let ghost d0 = done@;
            done.push(cur);
            cur = Vec::new();
            i += 3;
            proof {
                let r = split_fields(v@.skip(i as int));
                assert(split_fields(rest) == seq![Seq::<char>::empty()] + r);
                assert(done@.map_values(|p: Vec<char>| p@) =~= d0.map_values(|p: Vec<char>| p@).push(
                    done@[done@.len() - 1]@,
                ));
                assert(r.update(0, cur@ + r[0]) =~= r);
            }
        } else {
            proof {
                assert(rest.drop_first() =~= v@.skip(i + 1));
                lemma_split_fields_nonempty(v@.skip(i + 1));
                if rest.len() >= 3 {
                    assert(!(rest[0] == '|' && rest[1] == '|' && rest[2] == '|'));
                }
            }
            let ghost prev_cur = cur@;
            cur.push(v[i]);
            i += 1;
            proof {
                let r = split_fields(v@.skip(i as int));
                assert(rest[0] == v@[i - 1]);
                assert(split_fields(rest) == r.update(0, seq![rest[0]] + r[0]));
                assert(prev_cur.push(rest[0]) + r[0] =~= prev_cur + (seq![rest[0]] + r[0]));
                assert(split_fields(rest).update(0, prev_cur + split_fields(rest)[0]) =~= r.update(
                    0,
                    cur@ + r[0],
                ));
            }
        }
    }
    proof {
        assert(v@.skip(i as int) =~= Seq::<char>::empty());
    }
    done.push(cur);
    assert(done@.map_values(|p: Vec<char>| p@) =~= split_fields(v@));
    done
}

/// The fields of the status script's answer. The duration (milliseconds) and the position
/// (seconds) are decimal texts that may carry fractions; the program reads them.
#[derive(Debug)]
pub struct StatusFields {
    pub track: String,
    pub artist: String,
    pub album: String,
    pub duration: String,
    pub position: String,
    pub is_playing: bool,
    pub volume: i32,
    pub album_art_url: String,
}

/// Whether `f` holds the fields of the pieces `parts` of an answer: texts as they stand,
/// playing when the state reads `playing`, and the volume read as an `i32` (zero when it does
/// not read as one).
pub open spec fn fields_of(f: StatusFields, parts: Seq<Seq<char>>) -> bool {
    &&& f.track@ == parts[0]
    &&& f.artist@ == parts[1]
    &&& f.album@ == parts[2]
    &&& f.duration@ == parts[3]
    &&& f.position@ == parts[4]
    &&& f.is_playing == (parts[5] == "playing"@)
    &&& f.volume == match parse_i32_spec(parts[6]) {
        Some(v) => v,
        None => 0,
    }
    &&& f.album_art_url@ == parts[7]
}

fn text_of(v: &Vec<char>) -> (r: String)
    ensures
        r@ == v@,
{
    let s = string_of(v.as_slice(), 0, v.len());
    assert(v@.subrange(0, v@.len() as int) =~= v@);
    s
}

/// Reads the answer of `STATUS_SCRIPT`: `None` when it has fewer than eight fields.
pub fn parse_status_output(out: &str) -> (r: Option<StatusFields>)
    ensures
        match r {
            None => split_fields(out@).len() < 8,
            Some(f) => split_fields(out@).len() >= 8 && fields_of(f, split_fields(out@)),
        },
{
    let chars = chars_of(out);
    let parts = split_on_bars(chars.as_slice());
    if parts.len() < 8 {
        return None;
    }
    let state = text_of(&parts[5]);
    let playing = str_eq(state.as_str(), "playing");
    let volume = match parse_i32(parts[6].as_slice()) {
        Some(v) => v,
        None => 0,
    };
    Some(
        StatusFields {
            track: text_of(&parts[0]),
            artist: text_of(&parts[1]),
            album: text_of(&parts[2]),
            duration: text_of(&parts[3]),
            position: text_of(&parts[4]),
            is_playing: playing,
            volume,
            album_art_url: text_of(&parts[7]),
        },
    )
}

impl Status {
    /// The status of a running player from the fields of its answer, with the duration and the
    /// position in milliseconds.
    pub fn from_fields(f: StatusFields, duration_ms: u64, position_ms: u64) -> (r: Status)
        ensures
            r@ == (StatusView {
                is_running: true,
                is_playing: f.is_playing,
                track: f.track@,
                artist: f.artist@,
                album: f.album@,
                duration_ms,
                position_ms,
                volume: f.volume,
                album_art_url: f.album_art_url@,
            }),
    {
        Status {
            is_running: true,
            is_playing: f.is_playing,
            track: f.track,
            artist: f.artist,
            album: f.album,
            duration_ms,
            position_ms,
            volume: f.volume,
            album_art_url: f.album_art_url,
        }
    }
}

} // verus!
