//! Session records: the play queue is saved as flat track records between runs.
use vstd::prelude::*;
use crate::api::{spec_album_title, spec_artist_name, AlbumBrief, Artist, Track};

verus! {

/// A queued track as stored in the saved session.
#[derive(Debug)]
pub struct SessionTrack {
    pub id: String,
    pub title: String,
    pub artist: String,
    pub artist_id: String,
    pub album: String,
    pub duration: u64,
    pub track_number: Option<u32>,
}

impl Clone for SessionTrack {
    fn clone(&self) -> (res: Self)
        ensures
            res == *self,
    {
        SessionTrack {
            id: self.id.clone(),
            title: self.title.clone(),
            artist: self.artist.clone(),
            artist_id: self.artist_id.clone(),
            album: self.album.clone(),
            duration: self.duration,
            track_number: self.track_number,
        }
    }
}

/// The performer id of a track, or the empty string when it has no performer.
pub open spec fn spec_artist_id(t: Track) -> Seq<char> {
    match t.performer {
        Some(a) => a.id@,
        None => Seq::<char>::empty(),
    }
}

/// The session record of a track.
pub open spec fn spec_session_of(t: Track, st: SessionTrack) -> bool {
    &&& st.id == t.id
    &&& st.title == t.title
    &&& st.artist@ == spec_artist_name(t)
    &&& st.artist_id@ == spec_artist_id(t)
    &&& st.album@ == spec_album_title(t)
    &&& st.duration == t.duration
    &&& st.track_number == t.track_number
}

/// The track that a session record restores.
pub open spec fn spec_track_of(st: SessionTrack) -> Track {
    Track {
        id: st.id,
        title: st.title,
        duration: st.duration,
        track_number: st.track_number,
        performer: Some(Artist { id: st.artist_id, name: st.artist }),
        album: Some(AlbumBrief { title: st.album, artist: None }),
    }
}

impl SessionTrack {
    /// The session record of a track.
    pub fn from_track(t: &Track) -> (st: SessionTrack)
        ensures
            spec_session_of(*t, st),
    {
        let artist_id = match &t.performer {
            Some(a) => a.id.clone(),
            None => String::new(),
        };
        SessionTrack {
            id: t.id.clone(),
            title: t.title.clone(),
            artist: t.artist_name().to_owned(),
            artist_id,
            album: t.album_title().to_owned(),
            duration: t.duration,
            track_number: t.track_number,
        }
    }

    /// The track that this record restores: performer and album rebuilt from
    /// the saved names.
    pub fn to_track(&self) -> (t: Track)
        ensures
            t == spec_track_of(*self),
    {
        Track {
            id: self.id.clone(),
            title: self.title.clone(),
            duration: self.duration,
            track_number: self.track_number,
            performer: Some(Artist { id: self.artist_id.clone(), name: self.artist.clone() }),
            album: Some(AlbumBrief { title: self.album.clone(), artist: None }),
        }
    }
}

/// Restoring a saved track keeps everything that the player and the queue
/// show of it: id, title, artist name, artist id, album title, duration and
/// track number.
pub proof fn lemma_track_round_trip(t: Track, st: SessionTrack)
    requires
        spec_session_of(t, st),
    ensures
        spec_track_of(st).id == t.id,
        spec_track_of(st).title == t.title,
        spec_artist_name(spec_track_of(st)) == spec_artist_name(t),
        spec_artist_id(spec_track_of(st)) == spec_artist_id(t),
        spec_album_title(spec_track_of(st)) == spec_album_title(t),
        spec_track_of(st).duration == t.duration,
        spec_track_of(st).track_number == t.track_number,
{
}

/// Saving a restored track gives back the same session record.
pub proof fn lemma_session_round_trip(st: SessionTrack, st2: SessionTrack)
    requires
        spec_session_of(spec_track_of(st), st2),
    ensures
        st2.id == st.id,
        st2.title == st.title,
        st2.artist@ == st.artist@,
        st2.artist_id@ == st.artist_id@,
        st2.album@ == st.album@,
        st2.duration == st.duration,
        st2.track_number == st.track_number,
{
}

} // verus!
