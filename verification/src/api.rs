//! Catalogue records returned by the Qobuz API (tracks, albums, playlists)
//! and the quality fallback chain used when a format is unavailable.
use vstd::prelude::*;
use crate::text::{format_min_sec, spec_min_sec};

verus! {

/// A performer or album artist.
#[derive(Debug)]
pub struct Artist {
    pub id: String,
    pub name: String,
}

/// The album a track belongs to, as embedded in track records.
#[derive(Debug)]
pub struct AlbumBrief {
    pub title: String,
    pub artist: Option<Artist>,
}

/// Cover art URLs of an album.
#[derive(Debug)]
pub struct AlbumImage {
    pub small: Option<String>,
    pub thumbnail: Option<String>,
    pub large: Option<String>,
}

/// A track of the catalogue.
#[derive(Debug)]
pub struct Track {
    pub id: String,
    pub title: String,
    pub duration: u64,
    pub performer: Option<Artist>,
    pub album: Option<AlbumBrief>,
    pub track_number: Option<u32>,
}

/// A page of tracks with the total number of matches.
#[derive(Debug)]
pub struct TrackList {
    pub items: Vec<Track>,
    pub total: u64,
}

/// An album of the catalogue.
#[derive(Debug)]
pub struct Album {
    pub id: String,
    pub title: String,
    pub artist: Option<Artist>,
    pub tracks: Option<TrackList>,
    pub tracks_count: Option<u32>,
    pub duration: Option<u64>,
    pub release_date_original: Option<String>,
    pub image: Option<AlbumImage>,
}

/// A page of albums with the total number of matches.
#[derive(Debug)]
pub struct AlbumList {
    pub items: Vec<Album>,
    pub total: u64,
}

/// The owner of a playlist.
#[derive(Debug)]
pub struct PlaylistOwner {
    pub name: String,
}

/// A user playlist.
#[derive(Debug)]
pub struct Playlist {
    pub id: String,
    pub name: String,
    pub tracks_count: Option<u32>,
    pub duration: Option<u64>,
    pub owner: Option<PlaylistOwner>,
    pub tracks: Option<TrackList>,
}

/// Results of a catalogue search.
#[derive(Debug)]
pub struct SearchResults {
    pub tracks: Option<TrackList>,
    pub albums: Option<AlbumList>,
}

impl Clone for Artist {
    fn clone(&self) -> (res: Self)
        ensures
            res == *self,
    {
        Artist { id: self.id.clone(), name: self.name.clone() }
    }
}

impl Clone for AlbumBrief {
    fn clone(&self) -> (res: Self)
        ensures
            res == *self,
    {
        AlbumBrief { title: self.title.clone(), artist: self.artist.clone() }
    }
}

impl Clone for AlbumImage {
    fn clone(&self) -> (res: Self)
        ensures
            res == *self,
    {
        AlbumImage {
            small: self.small.clone(),
            thumbnail: self.thumbnail.clone(),
            large: self.large.clone(),
        }
    }
}

impl Clone for Track {
    fn clone(&self) -> (res: Self)
        ensures
            res == *self,
    {
        Track {
            id: self.id.clone(),
            title: self.title.clone(),
            duration: self.duration,
            performer: self.performer.clone(),
            album: self.album.clone(),
            track_number: self.track_number,
        }
    }
}

/// Two optional track pages hold the same tracks and total.
pub open spec fn same_track_list(a: Option<TrackList>, b: Option<TrackList>) -> bool {
    match (a, b) {
        (None, None) => true,
        (Some(x), Some(y)) => x.items@ == y.items@ && x.total == y.total,
        _ => false,
    }
}

/// Two albums agree on every field, the track page compared by its contents.
pub open spec fn same_album(a: Album, b: Album) -> bool {
    &&& a.id == b.id
    &&& a.title == b.title
    &&& a.artist == b.artist
    &&& same_track_list(a.tracks, b.tracks)
    &&& a.tracks_count == b.tracks_count
    &&& a.duration == b.duration
    &&& a.release_date_original == b.release_date_original
    &&& a.image == b.image
}

/// Two playlists agree on every field, the track page compared by its contents.
pub open spec fn same_playlist(a: Playlist, b: Playlist) -> bool {
    &&& a.id == b.id
    &&& a.name == b.name
    &&& a.tracks_count == b.tracks_count
    &&& a.duration == b.duration
    &&& a.owner == b.owner
    &&& same_track_list(a.tracks, b.tracks)
}

impl Clone for TrackList {
    fn clone(&self) -> (res: Self)
        ensures
            res.items@ == self.items@,
            res.total == self.total,
    {
        let items = self.items.clone();
        assert(items@ =~= self.items@);
        TrackList { items, total: self.total }
    }
}

impl Clone for Album {
    fn clone(&self) -> (res: Self)
        ensures
            same_album(res, *self),
    {
        Album {
            id: self.id.clone(),
            title: self.title.clone(),
            artist: self.artist.clone(),
            tracks: self.tracks.clone(),
            tracks_count: self.tracks_count,
            duration: self.duration,
            release_date_original: self.release_date_original.clone(),
            image: self.image.clone(),
        }
    }
}

impl Clone for AlbumList {
    fn clone(&self) -> (res: Self)
        ensures
            res.items.len() == self.items.len(),
            forall|i: int| 0 <= i < self.items.len() ==> same_album(#[trigger] res.items@[i], self.items@[i]),
            res.total == self.total,
    {
        let items = self.items.clone();
        AlbumList { items, total: self.total }
    }
}

impl Clone for PlaylistOwner {
    fn clone(&self) -> (res: Self)
        ensures
            res == *self,
    {
        PlaylistOwner { name: self.name.clone() }
    }
}

impl Clone for Playlist {
    fn clone(&self) -> (res: Self)
        ensures
            same_playlist(res, *self),
    {
        Playlist {
            id: self.id.clone(),
            name: self.name.clone(),
            tracks_count: self.tracks_count,
            duration: self.duration,
            owner: self.owner.clone(),
            tracks: self.tracks.clone(),
        }
    }
}

impl Default for Artist {
    fn default() -> (res: Self)
        ensures
            res.id@ == Seq::<char>::empty(),
            res.name@ == Seq::<char>::empty(),
    {
        Artist { id: String::new(), name: String::new() }
    }
}

impl Default for Track {
    fn default() -> (res: Self)
        ensures
            res.id@ == Seq::<char>::empty(),
            res.title@ == Seq::<char>::empty(),
            res.duration == 0,
            res.performer is None,
            res.album is None,
            res.track_number is None,
    {
        Track {
            id: String::new(),
            title: String::new(),
            duration: 0,
            performer: None,
            album: None,
            track_number: None,
        }
    }
}

impl Default for SearchResults {
    fn default() -> (res: Self)
        ensures
            res.tracks is None,
            res.albums is None,
    {
        SearchResults { tracks: None, albums: None }
    }
}

/// Artist display name of a track: the performer's name, or "Unknown".
pub open spec fn spec_artist_name(t: Track) -> Seq<char> {
    match t.performer {
        Some(a) => a.name@,
        None => "Unknown"@,
    }
}

/// Album title of a track: the album's title, or "Unknown".
pub open spec fn spec_album_title(t: Track) -> Seq<char> {
    match t.album {
        Some(a) => a.title@,
        None => "Unknown"@,
    }
}

impl Track {
    /// Artist display name, or "Unknown" if not available.
    pub fn artist_name(&self) -> (s: &str)
        ensures
            s@ == spec_artist_name(*self),
    {
        match &self.performer {
            Some(a) => a.name.as_str(),
            None => "Unknown",
        }
    }

    /// Album title, or "Unknown" if not available.
    pub fn album_title(&self) -> (s: &str)
        ensures
            s@ == spec_album_title(*self),
    {
        match &self.album {
            Some(a) => a.title.as_str(),
            None => "Unknown",
        }
    }

    /// Format duration as "M:SS".
    pub fn format_duration(&self) -> (s: String)
        ensures
            s@ == spec_min_sec(self.duration as nat),
    {
        format_min_sec(self.duration)
    }
}

/// The quality fallback chain for a preferred format_id: the preferred
/// format first, then every lower format down to MP3.
pub open spec fn spec_fallback_chain(preferred: u32) -> Seq<u32> {
    if preferred == 27 {
        seq![27u32, 7, 6, 5]
    } else if preferred == 7 {
        seq![7u32, 6, 5]
    } else if preferred == 6 {
        seq![6u32, 5]
    } else {
        seq![5u32]
    }
}

/// The fallback chain starts at the format asked for when the service
/// knows it (else at MP3), lists known formats only, from the best quality
/// down, and always ends with MP3 320k (format 5).
pub proof fn lemma_fallback_chain_shape(preferred: u32)
    ensures
        spec_fallback_chain(preferred).len() >= 1,
        spec_fallback_chain(preferred).last() == 5,
        (preferred == 27 || preferred == 7 || preferred == 6 || preferred == 5) ==> spec_fallback_chain(preferred)[0] == preferred,
        !(preferred == 27 || preferred == 7 || preferred == 6 || preferred == 5) ==> spec_fallback_chain(preferred) == seq![5u32],
        forall|i: int, j: int| 0 <= i < j < spec_fallback_chain(preferred).len() ==> spec_fallback_chain(preferred)[i] > spec_fallback_chain(preferred)[j],
        forall|i: int| 0 <= i < spec_fallback_chain(preferred).len() ==> crate::player::spec_quality_of(#[trigger] spec_fallback_chain(preferred)[i]) is Some,
{
}

/// One request for the next format of a chain: with `tried` formats taken
/// so far, the next one is given and counted, or nothing once the chain is
/// used up.
pub open spec fn chain_step(chain: Seq<u32>, tried: nat, next_tried: nat, f: Option<u32>) -> bool {
    if tried < chain.len() {
        f == Some(chain[tried as int]) && next_tried == tried + 1
    } else {
        f is None && next_tried == tried
    }
}

/// The formats actually given by a run of requests.
pub open spec fn given(fs: Seq<Option<u32>>) -> Seq<u32>
    decreases fs.len(),
{
    if fs.len() == 0 {
        Seq::empty()
    } else {
        match fs.last() {
            Some(f) => given(fs.drop_last()).push(f),
            None => given(fs.drop_last()),
        }
    }
}

/// Formats are tried in chain order and none twice: over any run of
/// requests from the start of a chain, the formats given are the first ones
/// of the chain, in order, as many as were counted, and never more than the
/// chain holds.
pub proof fn lemma_chain_walk(chain: Seq<u32>, tried: Seq<nat>, fs: Seq<Option<u32>>)
    requires
        tried.len() == fs.len() + 1,
        tried[0] == 0,
        forall|i: int| 0 <= i < fs.len() ==> #[trigger] chain_step(chain, tried[i], tried[i + 1], fs[i]),
    ensures
        tried.last() <= chain.len(),
        given(fs) == chain.take(tried.last() as int),
    decreases fs.len(),
{
    if fs.len() == 0 {
        assert(chain.take(0) =~= Seq::<u32>::empty());
    } else {
        let n = fs.len() - 1;
        let fewer = tried.take(tried.len() - 1);
        assert forall|i: int| 0 <= i < fs.drop_last().len() implies #[trigger] chain_step(chain, fewer[i], fewer[i + 1], fs.drop_last()[i]) by {
            assert(chain_step(chain, tried[i], tried[i + 1], fs[i]));
        }
        lemma_chain_walk(chain, fewer, fs.drop_last());
        assert(chain_step(chain, tried[n], tried[n + 1], fs[n]));
        assert(fewer.last() == tried[n]);
        if tried[n] < chain.len() {
            assert(chain.take(tried[n] as int).push(chain[tried[n] as int]) =~= chain.take(tried[n] as int + 1));
        }
    }
}

/// Quality fallback chain for a given preferred format_id.
pub fn format_fallback_chain(preferred: u32) -> (chain: &'static [u32])
    ensures
        chain@ == spec_fallback_chain(preferred),
{
    if preferred == 27 {
        let c: &'static [u32] = &[27, 7, 6, 5];
        assert(c@ =~= seq![27u32, 7, 6, 5]);
        c
    } else if preferred == 7 {
        let c: &'static [u32] = &[7, 6, 5];
        assert(c@ =~= seq![7u32, 6, 5]);
        c
    } else if preferred == 6 {
        let c: &'static [u32] = &[6, 5];
        assert(c@ =~= seq![6u32, 5]);
        c
    } else {
        let c: &'static [u32] = &[5];
        assert(c@ =~= seq![5u32]);
        c
    }
}

} // verus!
