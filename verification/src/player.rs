//! Audio quality levels offered by the streaming service.
use vstd::prelude::*;
use crate::text::opt_view;

verus! {

/// Audio quality format offered by Qobuz, identified by its `format_id`.
#[derive(Debug, Clone, Copy, PartialEq, Eq, Structural)]
pub enum AudioQuality {
    Mp3_320,
    FlacCd,
    FlacHiRes96,
    FlacHiRes192,
}

/// The `format_id` that the service uses for a quality level.
pub open spec fn spec_format_id_of(q: AudioQuality) -> u32 {
    match q {
        AudioQuality::Mp3_320 => 5,
        AudioQuality::FlacCd => 6,
        AudioQuality::FlacHiRes96 => 7,
        AudioQuality::FlacHiRes192 => 27,
    }
}

/// The quality level of a `format_id`, if the service knows it.
pub open spec fn spec_quality_of(id: u32) -> Option<AudioQuality> {
    if id == 5 {
        Some(AudioQuality::Mp3_320)
    } else if id == 6 {
        Some(AudioQuality::FlacCd)
    } else if id == 7 {
        Some(AudioQuality::FlacHiRes96)
    } else if id == 27 {
        Some(AudioQuality::FlacHiRes192)
    } else {
        None
    }
}

/// Human-readable label of a quality level.
pub open spec fn spec_label_of(q: AudioQuality) -> Seq<char> {
    match q {
        AudioQuality::Mp3_320 => "MP3 320k"@,
        AudioQuality::FlacCd => "FLAC 16/44"@,
        AudioQuality::FlacHiRes96 => "FLAC 24/96"@,
        AudioQuality::FlacHiRes192 => "FLAC 24/192"@,
    }
}

impl AudioQuality {
    /// Convert a Qobuz format_id (5, 6, 7, 27) to an `AudioQuality` variant.
    pub fn from_format_id(id: u32) -> (res: Option<AudioQuality>)
        ensures
            res == spec_quality_of(id),
    {
        if id == 5 {
            Some(AudioQuality::Mp3_320)
        } else if id == 6 {
            Some(AudioQuality::FlacCd)
        } else if id == 7 {
            Some(AudioQuality::FlacHiRes96)
        } else if id == 27 {
            Some(AudioQuality::FlacHiRes192)
        } else {
            None
        }
    }

    /// The Qobuz format_id of this quality level.
    pub fn format_id(&self) -> (id: u32)
        ensures
            id == spec_format_id_of(*self),
    {
        match self {
            AudioQuality::Mp3_320 => 5,
            AudioQuality::FlacCd => 6,
            AudioQuality::FlacHiRes96 => 7,
            AudioQuality::FlacHiRes192 => 27,
        }
    }

    /// Human-readable label (e.g. "FLAC 24/192").
    pub fn label(&self) -> (s: &'static str)
        ensures
            s@ == spec_label_of(*self),
    {
        proof {
            reveal_strlit("MP3 320k");
            reveal_strlit("FLAC 16/44");
            reveal_strlit("FLAC 24/96");
            reveal_strlit("FLAC 24/192");
        }
        match self {
            AudioQuality::Mp3_320 => "MP3 320k",
            AudioQuality::FlacCd => "FLAC 16/44",
            AudioQuality::FlacHiRes96 => "FLAC 24/96",
            AudioQuality::FlacHiRes192 => "FLAC 24/192",
        }
    }
}

/// A quality level and its format_id name each other.
pub proof fn lemma_format_id_round_trip(q: AudioQuality)
    ensures
        spec_quality_of(spec_format_id_of(q)) == Some(q),
{
}

} // verus!

verus! {

/// Largest `std::time::Duration`, in nanoseconds.
pub const DURATION_MAX_NANOS: u128 = 18446744073709551615999999999;

/// Nanoseconds per second.
pub const NANOS_PER_SEC: u128 = 1000000000;

/// `a - b`, or zero when `b` is later (`Instant::saturating_duration_since`).
pub open spec fn since(a: u64, b: u64) -> u128 {
    if a >= b {
        (a - b) as u128
    } else {
        0
    }
}

/// What a pause toggle does to the audio output.
#[derive(Debug, Clone, Copy, PartialEq, Eq, Structural)]
pub enum PauseChange {
    Paused,
    Resumed,
    Unchanged,
}

/// Playback state of the player: what is loaded, whether it plays, and the
/// clock readings from which the elapsed time is computed. Clock readings
/// are nanoseconds of a monotonic clock; durations are nanoseconds.
pub struct PlaybackState {
    pub is_playing: bool,
    pub is_loading: bool,
    pub current_track_title: Option<String>,
    pub current_track_artist: Option<String>,
    pub current_track_duration: u64,
    pub current_quality: Option<AudioQuality>,
    pub cached_data: Option<Vec<u8>>,
    pub play_started_at: Option<u64>,
    pub paused_duration: u128,
    pub pause_started_at: Option<u64>,
    pub position_offset: u64,
    pub last_seek_err: Option<String>,
}

impl PlaybackState {
    pub open spec fn quality_spec(&self) -> Option<AudioQuality> {
        self.current_quality
    }

    pub open spec fn seekable_spec(&self) -> bool {
        self.cached_data is Some
    }

    pub open spec fn cached_spec(&self) -> Option<Seq<u8>> {
        match self.cached_data {
            Some(d) => Some(d@),
            None => None,
        }
    }

    pub open spec fn started_spec(&self) -> Option<u64> {
        self.play_started_at
    }

    pub open spec fn paused_spec(&self) -> u128 {
        self.paused_duration
    }

    pub open spec fn pause_started_spec(&self) -> Option<u64> {
        self.pause_started_at
    }

    pub open spec fn offset_spec(&self) -> u64 {
        self.position_offset
    }

    pub open spec fn seek_error_spec(&self) -> Option<Seq<char>> {
        match self.last_seek_err {
            Some(e) => Some(e@),
            None => None,
        }
    }

    /// Time spent paused up to `now`, counting a pause still in progress.
    pub open spec fn paused_until(&self, now: u64) -> int {
        self.paused_spec() + match self.pause_started_spec() {
            Some(p) => since(now, p) as int,
            None => 0int,
        }
    }

    /// Playing time up to `now`: wall time since the start minus pauses.
    pub open spec fn played_until(&self, now: u64) -> int {
        match self.started_spec() {
            Some(s) => {
                let wall = since(now, s) as int;
                let paused = self.paused_until(now);
                if wall >= paused {
                    wall - paused
                } else {
                    0
                }
            },
            None => 0,
        }
    }

    /// The duration arithmetic of the elapsed time stays within the range of
    /// `std::time::Duration` at `now`.
    pub open spec fn clock_fits(&self, now: u64) -> bool {
        &&& self.paused_until(now) <= DURATION_MAX_NANOS
        &&& self.offset_spec() * NANOS_PER_SEC + self.played_until(now) <= DURATION_MAX_NANOS
    }

    /// Elapsed playback time in whole seconds at `now`, at most the track's
    /// duration; 0 before playback starts.
    pub open spec fn elapsed_at(&self, now: u64) -> int {
        match self.started_spec() {
            Some(s) => {
                let secs = (self.offset_spec() * NANOS_PER_SEC + self.played_until(now)) / (NANOS_PER_SEC as int);
                if secs < self.current_track_duration {
                    secs
                } else {
                    self.current_track_duration as int
                }
            },
            None => 0,
        }
    }

    /// A fresh player state: nothing loaded, nothing playing.
    pub fn new() -> (s: PlaybackState)
        ensures
            !s.is_playing,
            !s.is_loading,
            s.current_track_title is None,
            s.current_track_artist is None,
            s.current_track_duration == 0,
            s.quality_spec() is None,
            !s.seekable_spec(),
            s.started_spec() is None,
            s.paused_spec() == 0,
            s.pause_started_spec() is None,
            s.offset_spec() == 0,
            s.seek_error_spec() is None,
    {
        PlaybackState {
            is_playing: false,
            is_loading: false,
            current_track_title: None,
            current_track_artist: None,
            current_track_duration: 0,
            current_quality: None,
            cached_data: None,
            play_started_at: None,
            paused_duration: 0,
            pause_started_at: None,
            position_offset: 0,
            last_seek_err: None,
        }
    }

    /// Record that playback of a track started at `now`.
    fn start_playback(&mut self, title: &str, artist: &str, duration: u64, now: u64)
        ensures
            final(self).is_playing,
            !final(self).is_loading,
            opt_view(final(self).current_track_title) == Some(title@),
            opt_view(final(self).current_track_artist) == Some(artist@),
            final(self).current_track_duration == duration,
            final(self).quality_spec() is None,
            final(self).cached_spec() == old(self).cached_spec(),
            final(self).started_spec() == Some(now),
            final(self).paused_spec() == 0,
            final(self).pause_started_spec() is None,
            final(self).offset_spec() == 0,
            final(self).seek_error_spec() is None,
    {
        self.is_playing = true;
        self.is_loading = false;
        self.current_track_title = Some(title.to_owned());
        self.current_track_artist = Some(artist.to_owned());
        self.current_track_duration = duration;
        self.current_quality = None;
        self.play_started_at = Some(now);
        self.paused_duration = 0;
        self.pause_started_at = None;
        self.position_offset = 0;
        self.last_seek_err = None;
    }

    /// Playback of fully downloaded audio started at `now`; the data is kept
    /// so that the track can be sought.
    pub fn play_audio(&mut self, data: Vec<u8>, title: &str, artist: &str, duration: u64, now: u64)
        ensures
            final(self).is_playing,
            !final(self).is_loading,
            opt_view(final(self).current_track_title) == Some(title@),
            opt_view(final(self).current_track_artist) == Some(artist@),
            final(self).current_track_duration == duration,
            final(self).quality_spec() is None,
            final(self).cached_spec() == Some(data@),
            final(self).started_spec() == Some(now),
            final(self).paused_spec() == 0,
            final(self).pause_started_spec() is None,
            final(self).offset_spec() == 0,
            final(self).seek_error_spec() is None,
    {
        self.cached_data = Some(data);
        self.start_playback(title, artist, duration, now);
    }

    /// Forget the kept audio data: a streamed track is about to be decoded.
    pub fn drop_cached_data(&mut self)
        ensures
            final(self).cached_spec() is None,
            final(self).is_playing == old(self).is_playing,
            final(self).is_loading == old(self).is_loading,
            final(self).current_track_title == old(self).current_track_title,
            final(self).current_track_artist == old(self).current_track_artist,
            final(self).current_track_duration == old(self).current_track_duration,
            final(self).quality_spec() == old(self).quality_spec(),
            final(self).started_spec() == old(self).started_spec(),
            final(self).paused_spec() == old(self).paused_spec(),
            final(self).pause_started_spec() == old(self).pause_started_spec(),
            final(self).offset_spec() == old(self).offset_spec(),
            final(self).seek_error_spec() == old(self).seek_error_spec(),
    {
        self.cached_data = None;
    }

    /// Playback of a progressive download started at `now`; seeking is not
    /// available until the data is kept with `enable_seek`.
    pub fn play_streaming(&mut self, title: &str, artist: &str, duration: u64, now: u64)
        ensures
            final(self).is_playing,
            !final(self).is_loading,
            opt_view(final(self).current_track_title) == Some(title@),
            opt_view(final(self).current_track_artist) == Some(artist@),
            final(self).current_track_duration == duration,
            final(self).quality_spec() is None,
            final(self).cached_spec() is None,
            final(self).started_spec() == Some(now),
            final(self).paused_spec() == 0,
            final(self).pause_started_spec() is None,
            final(self).offset_spec() == 0,
            final(self).seek_error_spec() is None,
    {
        self.cached_data = None;
        self.start_playback(title, artist, duration, now);
    }

    /// A resume at `now` keeps the paused time within the range of `Duration`.
    pub open spec fn resume_fits(&self, now: u64) -> bool {
        (!self.is_playing && self.current_track_title is Some && self.pause_started_spec() is Some)
            ==> self.paused_until(now) <= DURATION_MAX_NANOS
    }

    /// Whether a resume at `now` keeps the paused time within range.
    pub fn can_resume_at(&self, now: u64) -> (b: bool)
        ensures
            b == self.resume_fits(now),
    {
        if !self.is_playing && self.current_track_title.is_some() {
            match self.pause_started_at {
                Some(p) => {
                    let d: u128 = if now >= p { (now - p) as u128 } else { 0 };
                    self.paused_duration <= DURATION_MAX_NANOS - d
                },
                None => true,
            }
        } else {
            true
        }
    }

    /// Toggle between playing and paused at `now`. No-op if nothing is loaded.
    pub fn toggle_pause(&mut self, now: u64) -> (change: PauseChange)
        requires
            old(self).resume_fits(now),
        ensures
            old(self).is_playing ==> {
                &&& change == PauseChange::Paused
                &&& !final(self).is_playing
                &&& final(self).pause_started_spec() == Some(now)
                &&& final(self).paused_spec() == old(self).paused_spec()
            },
            !old(self).is_playing && old(self).current_track_title is Some ==> {
                &&& change == PauseChange::Resumed
                &&& final(self).is_playing
                &&& final(self).pause_started_spec() is None
                &&& final(self).paused_spec() == old(self).paused_until(now)
            },
            !old(self).is_playing && old(self).current_track_title is None ==> {
                &&& change == PauseChange::Unchanged
                &&& !final(self).is_playing
                &&& final(self).pause_started_spec() == old(self).pause_started_spec()
                &&& final(self).paused_spec() == old(self).paused_spec()
            },
            final(self).is_loading == old(self).is_loading,
            final(self).current_track_title == old(self).current_track_title,
            final(self).current_track_artist == old(self).current_track_artist,
            final(self).current_track_duration == old(self).current_track_duration,
            final(self).quality_spec() == old(self).quality_spec(),
            final(self).cached_spec() == old(self).cached_spec(),
            final(self).started_spec() == old(self).started_spec(),
            final(self).offset_spec() == old(self).offset_spec(),
            final(self).seek_error_spec() == old(self).seek_error_spec(),
    {
        if self.is_playing {
            self.is_playing = false;
            self.pause_started_at = Some(now);
            PauseChange::Paused
        } else if self.current_track_title.is_some() {
            self.is_playing = true;
            match self.pause_started_at {
                Some(p) => {
                    let d: u128 = if now >= p { (now - p) as u128 } else { 0 };
                    self.paused_duration = self.paused_duration + d;
                    self.pause_started_at = None;
                },
                None => {},
            }
            PauseChange::Resumed
        } else {
            PauseChange::Unchanged
        }
    }

    /// Mark playback as failed (e.g. download error).
    pub fn set_error(&mut self)
        ensures
            !final(self).is_loading,
            final(self).is_playing == old(self).is_playing,
            final(self).current_track_title == old(self).current_track_title,
            final(self).current_track_artist == old(self).current_track_artist,
            final(self).current_track_duration == old(self).current_track_duration,
            final(self).quality_spec() == old(self).quality_spec(),
            final(self).cached_spec() == old(self).cached_spec(),
            final(self).started_spec() == old(self).started_spec(),
            final(self).paused_spec() == old(self).paused_spec(),
            final(self).pause_started_spec() == old(self).pause_started_spec(),
            final(self).offset_spec() == old(self).offset_spec(),
            final(self).seek_error_spec() == old(self).seek_error_spec(),
    {
        self.is_loading = false;
    }

    /// Set the audio quality of the current track.
    pub fn set_quality(&mut self, quality: Option<AudioQuality>)
        ensures
            final(self).quality_spec() == quality,
            final(self).is_playing == old(self).is_playing,
            final(self).is_loading == old(self).is_loading,
            final(self).current_track_title == old(self).current_track_title,
            final(self).current_track_artist == old(self).current_track_artist,
            final(self).current_track_duration == old(self).current_track_duration,
            final(self).cached_spec() == old(self).cached_spec(),
            final(self).started_spec() == old(self).started_spec(),
            final(self).paused_spec() == old(self).paused_spec(),
            final(self).pause_started_spec() == old(self).pause_started_spec(),
            final(self).offset_spec() == old(self).offset_spec(),
            final(self).seek_error_spec() == old(self).seek_error_spec(),
    {
        self.current_quality = quality;
    }

    /// Store cached audio data to enable seek on the current track.
    pub fn enable_seek(&mut self, data: Vec<u8>)
        ensures
            final(self).cached_spec() == Some(data@),
            final(self).is_playing == old(self).is_playing,
            final(self).is_loading == old(self).is_loading,
            final(self).current_track_title == old(self).current_track_title,
            final(self).current_track_artist == old(self).current_track_artist,
            final(self).current_track_duration == old(self).current_track_duration,
            final(self).quality_spec() == old(self).quality_spec(),
            final(self).started_spec() == old(self).started_spec(),
            final(self).paused_spec() == old(self).paused_spec(),
            final(self).pause_started_spec() == old(self).pause_started_spec(),
            final(self).offset_spec() == old(self).offset_spec(),
            final(self).seek_error_spec() == old(self).seek_error_spec(),
    {
        self.cached_data = Some(data);
    }

    /// Current audio quality, if known.
    pub fn quality(&self) -> (q: Option<AudioQuality>)
        ensures
            q == self.quality_spec(),
    {
        self.current_quality
    }

    /// Whether seek is available (track data is cached).
    pub fn is_seekable(&self) -> (b: bool)
        ensures
            b == self.seekable_spec(),
    {
        self.cached_data.is_some()
    }

    /// The kept audio data of the current track, if any.
    pub fn cached_data(&self) -> (d: Option<&Vec<u8>>)
        ensures
            match d {
                Some(v) => self.cached_spec() == Some(v@),
                None => self.cached_spec() is None,
            },
    {
        match &self.cached_data {
            Some(v) => Some(v),
            None => None,
        }
    }

    /// Last seek error message, if any.
    pub fn last_seek_error(&self) -> (e: Option<&str>)
        ensures
            match e {
                Some(m) => self.seek_error_spec() == Some(m@),
                None => self.seek_error_spec() is None,
            },
    {
        match &self.last_seek_err {
            Some(m) => Some(m.as_str()),
            None => None,
        }
    }

    /// Mark the player as loading a new track (shows "Loading..." in the UI).
    /// Resets quality, seek state, and timing.
    pub fn set_loading(&mut self, title: &str, artist: &str)
        ensures
            final(self).is_loading,
            !final(self).is_playing,
            final(self).quality_spec() is None,
            final(self).seek_error_spec() is None,
            !final(self).seekable_spec(),
            opt_view(final(self).current_track_title) == Some(title@),
            opt_view(final(self).current_track_artist) == Some(artist@),
            final(self).current_track_duration == old(self).current_track_duration,
            final(self).started_spec() is None,
            final(self).paused_spec() == 0,
            final(self).pause_started_spec() is None,
            final(self).offset_spec() == 0,
    {
        self.is_loading = true;
        self.is_playing = false;
        self.current_quality = None;
        self.last_seek_err = None;
        self.cached_data = None;
        self.play_started_at = None;
        self.paused_duration = 0;
        self.pause_started_at = None;
        self.position_offset = 0;
        self.current_track_title = Some(title.to_owned());
        self.current_track_artist = Some(artist.to_owned());
    }

    /// True if the output is empty and we were playing (the track ended).
    pub fn is_finished(&self, output_empty: bool) -> (b: bool)
        ensures
            b == (output_empty && self.is_playing && !self.is_loading),
    {
        output_empty && self.is_playing && !self.is_loading
    }

    /// Whether the elapsed-time arithmetic stays in range at `now`.
    pub fn clock_fits_at(&self, now: u64) -> (b: bool)
        ensures
            b == self.clock_fits(now),
    {
        let pending: u128 = match self.pause_started_at {
            Some(p) => if now >= p { (now - p) as u128 } else { 0 },
            None => 0,
        };
        if self.paused_duration > DURATION_MAX_NANOS - pending {
            return false;
        }
        let paused: u128 = self.paused_duration + pending;
        let played: u128 = match self.play_started_at {
            Some(s) => {
                let wall: u128 = if now >= s { (now - s) as u128 } else { 0 };
                if wall >= paused { wall - paused } else { 0 }
            },
            None => 0,
        };
        let offset: u128 = self.position_offset as u128 * NANOS_PER_SEC;
        offset <= DURATION_MAX_NANOS - played
    }

    /// Elapsed playback time in seconds at `now` (accounts for pauses and
    /// seeks), at most the track's duration.
    pub fn elapsed_secs(&self, now: u64) -> (secs: u64)
        requires
            self.clock_fits(now),
        ensures
            secs == self.elapsed_at(now),
    {
        match self.play_started_at {
            Some(s) => {
                let wall: u128 = if now >= s { (now - s) as u128 } else { 0 };
                let pending: u128 = match self.pause_started_at {
                    Some(p) => if now >= p { (now - p) as u128 } else { 0 },
                    None => 0,
                };
                let paused: u128 = self.paused_duration + pending;
                let played: u128 = if wall >= paused { wall - paused } else { 0 };
                let total: u128 = self.position_offset as u128 * NANOS_PER_SEC + played;
                let secs: u128 = total / NANOS_PER_SEC;
                if secs < self.current_track_duration as u128 {
                    secs as u64
                } else {
                    self.current_track_duration
                }
            },
            None => 0,
        }
    }

    /// Position to seek to `secs` seconds ahead of the elapsed time, at most
    /// the track's duration.
    pub fn seek_forward_target(&self, secs: u64, now: u64) -> (target: u64)
        requires
            self.clock_fits(now),
            self.elapsed_at(now) + secs <= u64::MAX,
        ensures
            target == if self.elapsed_at(now) + secs < self.current_track_duration {
                self.elapsed_at(now) + secs
            } else {
                self.current_track_duration as int
            },
    {
        let current: u64 = self.elapsed_secs(now);
        let t: u64 = current + secs;
        if t < self.current_track_duration {
            t
        } else {
            self.current_track_duration
        }
    }

    /// Position to seek to `secs` seconds before the elapsed time, at least 0.
    pub fn seek_backward_target(&self, secs: u64, now: u64) -> (target: u64)
        requires
            self.clock_fits(now),
        ensures
            target == if self.elapsed_at(now) >= secs {
                self.elapsed_at(now) - secs
            } else {
                0
            },
    {
        let current: u64 = self.elapsed_secs(now);
        if current >= secs {
            current - secs
        } else {
            0
        }
    }

    /// Start a seek: it needs the kept audio data. Without it the seek is
    /// refused with an explanation, and `false` is returned.
    pub fn begin_seek(&mut self) -> (ok: bool)
        ensures
            ok == old(self).seekable_spec(),
            ok ==> final(self).seek_error_spec() is None,
            !ok ==> final(self).seek_error_spec() == Some("Seek available after track is cached"@),
            final(self).is_playing == old(self).is_playing,
            final(self).is_loading == old(self).is_loading,
            final(self).current_track_title == old(self).current_track_title,
            final(self).current_track_artist == old(self).current_track_artist,
            final(self).current_track_duration == old(self).current_track_duration,
            final(self).quality_spec() == old(self).quality_spec(),
            final(self).cached_spec() == old(self).cached_spec(),
            final(self).started_spec() == old(self).started_spec(),
            final(self).paused_spec() == old(self).paused_spec(),
            final(self).pause_started_spec() == old(self).pause_started_spec(),
            final(self).offset_spec() == old(self).offset_spec(),
    {
        if self.cached_data.is_some() {
            self.last_seek_err = None;
            true
        } else {
            self.last_seek_err = Some("Seek available after track is cached".to_owned());
            false
        }
    }

    /// The decoder could not be rebuilt for a seek; `message` explains why.
    pub fn seek_failed(&mut self, message: String)
        ensures
            final(self).seek_error_spec() == Some(message@),
            final(self).is_playing == old(self).is_playing,
            final(self).is_loading == old(self).is_loading,
            final(self).current_track_title == old(self).current_track_title,
            final(self).current_track_artist == old(self).current_track_artist,
            final(self).current_track_duration == old(self).current_track_duration,
            final(self).quality_spec() == old(self).quality_spec(),
            final(self).cached_spec() == old(self).cached_spec(),
            final(self).started_spec() == old(self).started_spec(),
            final(self).paused_spec() == old(self).paused_spec(),
            final(self).pause_started_spec() == old(self).pause_started_spec(),
            final(self).offset_spec() == old(self).offset_spec(),
    {
        self.last_seek_err = Some(message);
    }

    /// Playback restarted at `position_secs` at `now` after a seek.
    pub fn seek_done(&mut self, position_secs: u64, now: u64)
        ensures
            final(self).is_playing,
            final(self).offset_spec() == position_secs,
            final(self).started_spec() == Some(now),
            final(self).paused_spec() == 0,
            final(self).pause_started_spec() is None,
            final(self).is_loading == old(self).is_loading,
            final(self).current_track_title == old(self).current_track_title,
            final(self).current_track_artist == old(self).current_track_artist,
            final(self).current_track_duration == old(self).current_track_duration,
            final(self).quality_spec() == old(self).quality_spec(),
            final(self).cached_spec() == old(self).cached_spec(),
            final(self).seek_error_spec() == old(self).seek_error_spec(),
    {
        self.is_playing = true;
        self.position_offset = position_secs;
        self.play_started_at = Some(now);
        self.paused_duration = 0;
        self.pause_started_at = None;
    }

    /// Reset all player state (stop playback, clear track info).
    pub fn clear(&mut self)
        ensures
            !final(self).is_playing,
            !final(self).is_loading,
            final(self).current_track_title is None,
            final(self).current_track_artist is None,
            final(self).current_track_duration == 0,
            final(self).quality_spec() is None,
            !final(self).seekable_spec(),
            final(self).started_spec() is None,
            final(self).paused_spec() == 0,
            final(self).pause_started_spec() is None,
            final(self).offset_spec() == 0,
            final(self).seek_error_spec() == old(self).seek_error_spec(),
    {
        self.is_playing = false;
        self.is_loading = false;
        self.cached_data = None;
        self.current_quality = None;
        self.current_track_title = None;
        self.current_track_artist = None;
        self.current_track_duration = 0;
        self.play_started_at = None;
        self.paused_duration = 0;
        self.pause_started_at = None;
        self.position_offset = 0;
    }
}

/// Time does not play while paused: once a pause has begun (after the start
/// of playback, with no more pausing recorded than time has passed), the
/// playing time stays what it was when the pause began.
pub proof fn lemma_paused_time_not_played(q: PlaybackState, start: u64, pause_at: u64, now: u64)
    requires
        q.started_spec() == Some(start),
        q.pause_started_spec() == Some(pause_at),
        start <= pause_at <= now,
        q.paused_spec() <= pause_at - start,
    ensures
        q.played_until(now) == q.played_until(pause_at),
{
}

/// Resuming picks up where the pause began: after a pause begun at
/// `pause_at` is ended at `resume_at` (as `toggle_pause` records it), the
/// playing time at any later instant is the playing time when the pause
/// began plus the time since the resume.
pub proof fn lemma_resume_continues(q: PlaybackState, r: PlaybackState, start: u64, pause_at: u64, resume_at: u64, now: u64)
    requires
        q.started_spec() == Some(start),
        q.pause_started_spec() == Some(pause_at),
        start <= pause_at <= resume_at <= now,
        q.paused_spec() <= pause_at - start,
        r.started_spec() == q.started_spec(),
        r.pause_started_spec() is None,
        r.paused_spec() == q.paused_until(resume_at),
    ensures
        r.played_until(now) == q.played_until(pause_at) + (now - resume_at),
{
}

/// Loading a track leaves no elapsed time behind: once the playback clock
/// has been reset, the elapsed time reads 0 until playback starts.
pub proof fn lemma_loading_resets_clock(s: PlaybackState, now: u64)
    requires
        s.started_spec() is None,
    ensures
        s.elapsed_at(now) == 0,
{
}

/// A seek position counts in the elapsed time: once playback restarted at
/// `position_secs` at clock reading `at` (as `seek_done` records it) and no
/// pause has happened since, the elapsed time at `now` is the seek position
/// plus the whole seconds played since, at most the track's duration.
pub proof fn lemma_elapsed_after_seek(s: PlaybackState, position_secs: u64, at: u64, now: u64)
    requires
        s.offset_spec() == position_secs,
        s.started_spec() == Some(at),
        s.paused_spec() == 0,
        s.pause_started_spec() is None,
    ensures
        ({
            let played: int = if now >= at { now - at } else { 0 };
            let expected: int = position_secs + played / 1_000_000_000;
            s.elapsed_at(now) == if expected < s.current_track_duration {
                expected
            } else {
                s.current_track_duration as int
            }
        }),
{
    let played: int = if now >= at { now - at } else { 0 };
    assert(s.played_until(now) == played);
    vstd::arithmetic::div_mod::lemma_hoist_over_denominator(played, position_secs as int, 1_000_000_000nat);
    assert(position_secs * NANOS_PER_SEC == position_secs as int * 1_000_000_000);
    assert(played + position_secs as int * 1_000_000_000 == position_secs * NANOS_PER_SEC + played);
}

/// The elapsed time never exceeds the track's duration.
pub proof fn lemma_elapsed_bounded(s: PlaybackState, now: u64)
    ensures
        0 <= s.elapsed_at(now) <= s.current_track_duration,
{
    if let Some(st) = s.started_spec() {
        assert(s.played_until(now) >= 0);
        assert(s.offset_spec() * NANOS_PER_SEC >= 0) by (nonlinear_arith);
    }
}

} // verus!
