//! The Spotify Web API records the library works with.

use vstd::prelude::*;

verus! {

/// An artist of a track, or an artist found by a search.
#[derive(Debug, Default)]
pub struct Artist {
    pub name: String,
    pub uri: String,
}

impl Clone for Artist {
    fn clone(&self) -> (r: Self)
        ensures
            r == *self,
    {
        Artist { name: self.name.clone(), uri: self.uri.clone() }
    }
}

/// The album of a track.
#[derive(Debug, Default)]
pub struct Album {
    pub name: String,
}

impl Clone for Album {
    fn clone(&self) -> (r: Self)
        ensures
            r == *self,
    {
        Album { name: self.name.clone() }
    }
}

/// A track: its name, its URI, its artists and its album.
#[derive(Debug, Default)]
pub struct Track {
    pub name: String,
    pub uri: String,
    pub artists: Vec<Artist>,
    pub album: Album,
}

/// The name of the first artist of a track, or nothing when it lists none.
pub open spec fn first_artist_name_spec(t: Track) -> Seq<char> {
    if t.artists@.len() > 0 {
        t.artists@[0].name@
    } else {
        Seq::empty()
    }
}

impl Track {
    /// The name of the first artist of this track, or an empty string when it lists none.
    pub fn first_artist_name(&self) -> (r: String)
        ensures
            r@ == first_artist_name_spec(*self),
    {
        if self.artists.len() > 0 {
            self.artists[0].name.clone()
        } else {
            String::new()
        }
    }
}

/// How many tracks a playlist holds.
#[derive(Debug, Default, Clone, Copy)]
pub struct PlaylistTracks {
    pub total: i32,
}

/// A playlist of the user.
#[derive(Debug, Default)]
pub struct Playlist {
    pub id: String,
    pub name: String,
    pub uri: String,
    pub tracks: PlaylistTracks,
}

impl Clone for Playlist {
    fn clone(&self) -> (r: Self)
        ensures
            r == *self,
    {
        Playlist {
            id: self.id.clone(),
            name: self.name.clone(),
            uri: self.uri.clone(),
            tracks: self.tracks,
        }
    }
}

/// A device that can play.
#[derive(Debug, Default)]
pub struct Device {
    pub id: String,
    pub name: String,
    pub device_type: String,
    pub is_active: bool,
}

/// What the player is doing: its device, whether it plays, shuffles and repeats.
#[derive(Debug, Default)]
pub struct PlaybackState {
    pub device: Device,
    pub is_playing: bool,
    pub shuffle_state: bool,
    pub repeat_state: String,
}

/// The track playing now and the tracks queued after it.
#[derive(Debug, Default)]
pub struct QueueResponse {
    pub currently_playing: Track,
    pub queue: Vec<Track>,
}

/// One kind of search hit; an entry may be missing.
#[derive(Debug, Default)]
pub struct SearchItems<T> {
    pub items: Vec<Option<T>>,
}

/// The hits of a search, by kind.
#[derive(Debug, Default)]
pub struct SearchResults {
    pub tracks: SearchItems<Track>,
    pub playlists: SearchItems<Playlist>,
    pub artists: SearchItems<Artist>,
}

/// A page of the user's playlists.
#[derive(Debug, Default)]
pub struct PlaylistsResponse {
    pub items: Vec<Playlist>,
}

/// A saved track.
#[derive(Debug, Default)]
pub struct LikedTrackItem {
    pub track: Track,
}

/// A page of saved tracks.
#[derive(Debug, Default)]
pub struct LikedTracksResponse {
    pub items: Vec<LikedTrackItem>,
}

/// A track of a playlist.
#[derive(Debug, Default)]
pub struct PlaylistTrackItem {
    pub track: Track,
}

/// A page of the tracks of a playlist.
#[derive(Debug, Default)]
pub struct PlaylistTracksResponse {
    pub items: Vec<PlaylistTrackItem>,
}

/// The user's devices.
#[derive(Debug, Default)]
pub struct DevicesResponse {
    pub devices: Vec<Device>,
}

impl LikedTracksResponse {
    /// The tracks of this page, in order.
    pub fn into_tracks(self) -> (r: Vec<Track>)
        ensures
            r@.len() == self.items@.len(),
            forall|i: int| 0 <= i < r@.len() ==> #[trigger] r@[i] == self.items@[i].track,
    {
        let mut items = self.items;
        let ghost all = items@;
        let mut rev: Vec<Track> = Vec::new();
        while items.len() > 0
            invariant
                items@ == all.take(items@.len() as int),
                rev@.len() + items@.len() == all.len(),
                forall|i: int| 0 <= i < rev@.len() ==> #[trigger] rev@[i] == all[all.len() - 1 - i].track,
            decreases items.len(),
        {
            let item = items.pop().unwrap();
            rev.push(item.track);
            assert(items@ =~= all.take(items@.len() as int));
        }
        let mut out: Vec<Track> = Vec::new();
        let ghost revs = rev@;
        while rev.len() > 0
            invariant
                rev@ == revs.take(rev@.len() as int),
                revs.len() == all.len(),
                out@.len() + rev@.len() == all.len(),
                forall|i: int| 0 <= i < revs.len() ==> #[trigger] revs[i] == all[all.len() - 1 - i].track,
                forall|i: int| 0 <= i < out@.len() ==> #[trigger] out@[i] == all[i].track,
            decreases rev.len(),
        {
            let t = rev.pop().unwrap();
            out.push(t);
            assert(rev@ =~= revs.take(rev@.len() as int));
        }
        out
    }
}

impl PlaylistTracksResponse {
    /// The tracks of this page, in order.
    pub fn into_tracks(self) -> (r: Vec<Track>)
        ensures
            r@.len() == self.items@.len(),
            forall|i: int| 0 <= i < r@.len() ==> #[trigger] r@[i] == self.items@[i].track,
    {
        let mut items = self.items;
        let ghost all = items@;
        let mut rev: Vec<Track> = Vec::new();
        while items.len() > 0
            invariant
                items@ == all.take(items@.len() as int),
                rev@.len() + items@.len() == all.len(),
                forall|i: int| 0 <= i < rev@.len() ==> #[trigger] rev@[i] == all[all.len() - 1 - i].track,
            decreases items.len(),
        {
            let item = items.pop().unwrap();
            rev.push(item.track);
            assert(items@ =~= all.take(items@.len() as int));
        }
        let mut out: Vec<Track> = Vec::new();
        let ghost revs = rev@;
        while rev.len() > 0
            invariant
                rev@ == revs.take(rev@.len() as int),
                revs.len() == all.len(),
                out@.len() + rev@.len() == all.len(),
                forall|i: int| 0 <= i < revs.len() ==> #[trigger] revs[i] == all[all.len() - 1 - i].track,
                forall|i: int| 0 <= i < out@.len() ==> #[trigger] out@[i] == all[i].track,
            decreases rev.len(),
        {
            let t = rev.pop().unwrap();
            out.push(t);
            assert(rev@ =~= revs.take(rev@.len() as int));
        }
        out
    }
}

} // verus!
