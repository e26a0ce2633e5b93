//! Whole-file downloads: the retries of one audio request, the quality
//! fallback of one track, and the batch download of an album into the cache.
//! Each plan takes the decisions; the front end performs the requests and
//! the waits, and reports what happened.
use vstd::prelude::*;
use crate::api::{chain_step, format_fallback_chain, spec_fallback_chain};
use crate::app::AppMessage;
use crate::text::{concat, decimal, push_decimal, push_str};

verus! {

/// Requests made for one audio download: the first and three retries.
pub const AUDIO_ATTEMPTS: u64 = 4;

/// Attempts made at one track of an album download.
pub const ALBUM_TRACK_ATTEMPTS: u64 = 3;

/// Why an attempt at an audio request failed.
#[derive(Debug)]
pub enum AudioFailure {
    /// The request could not be made; the transport's message.
    Request(String),
    /// The server answered with this non-success status, as displayed.
    Status(String),
    /// The body could not be read; the transport's message.
    Read(String),
}

/// The message recorded for a failed attempt.
pub open spec fn spec_audio_failure_message(f: AudioFailure) -> Seq<char> {
    match f {
        AudioFailure::Request(m) => "Request failed: "@ + m@,
        AudioFailure::Status(s) => "HTTP "@ + s@,
        AudioFailure::Read(m) => "Read failed: "@ + m@,
    }
}

/// The retries of one audio request: a first attempt and three retries,
/// attempt `k` (counting from 0) coming after a pause of `1 + k` seconds.
pub struct RetryPlan {
    attempt: u64,
    last_err: String,
}

impl RetryPlan {
    /// The number of attempts started.
    pub closed spec fn attempts(&self) -> u64 {
        self.attempt
    }

    /// The message reported if every attempt fails.
    pub closed spec fn last_error(&self) -> Seq<char> {
        self.last_err@
    }

    /// A plan before its first attempt.
    pub fn new() -> (p: RetryPlan)
        ensures
            p.attempts() == 0,
            p.last_error() == "Download failed"@,
    {
        RetryPlan { attempt: 0, last_err: "Download failed".to_owned() }
    }

    /// Start the next attempt: the seconds to wait before it (none before
    /// the first), or `None` once the first attempt and its three retries
    /// have been made.
    pub fn next_attempt(&mut self) -> (delay: Option<u64>)
        ensures
            final(self).last_error() == old(self).last_error(),
            attempt_step(*old(self), *final(self), delay),
    {
        if self.attempt >= AUDIO_ATTEMPTS {
            return None;
        }
        let k: u64 = self.attempt;
        self.attempt = self.attempt + 1;
        if k == 0 {
            Some(0)
        } else {
            Some(1 + k)
        }
    }

    /// The attempt failed.
    pub fn failed(&mut self, failure: AudioFailure)
        ensures
            final(self).attempts() == old(self).attempts(),
            final(self).last_error() == spec_audio_failure_message(failure),
    {
        self.last_err = match failure {
            AudioFailure::Request(m) => concat("Request failed: ", m.as_str()),
            AudioFailure::Status(st) => concat("HTTP ", st.as_str()),
            AudioFailure::Read(m) => concat("Read failed: ", m.as_str()),
        };
    }

    /// The body of the attempt was read, `len` bytes long. Returns whether it
    /// is the download's result: an empty body counts as a failure.
    pub fn body_read(&mut self, len: usize) -> (done: bool)
        ensures
            final(self).attempts() == old(self).attempts(),
            done == (len > 0),
            done ==> final(self).last_error() == old(self).last_error(),
            !done ==> final(self).last_error() == "Empty response"@,
    {
        if len > 0 {
            true
        } else {
            self.last_err = "Empty response".to_owned();
            false
        }
    }

    /// The error of a download whose attempts all failed.
    pub fn into_error(self) -> (e: String)
        ensures
            e@ == self.last_error(),
    {
        self.last_err
    }
}

/// One start of an attempt: `q` is `p` after it, and `delay` the pause
/// before it (none when the attempts are used up).
pub open spec fn attempt_step(p: RetryPlan, q: RetryPlan, delay: Option<u64>) -> bool {
    &&& p.attempts() >= AUDIO_ATTEMPTS ==> delay is None && q.attempts() == p.attempts()
    &&& p.attempts() < AUDIO_ATTEMPTS ==> {
        &&& q.attempts() == p.attempts() + 1
        &&& delay == Some(if p.attempts() == 0 { 0u64 } else { (1 + p.attempts()) as u64 })
    }
}

/// Number of attempts actually started in a run of steps.
pub open spec fn started(delays: Seq<Option<u64>>) -> nat
    decreases delays.len(),
{
    if delays.len() == 0 {
        0
    } else {
        started(delays.drop_last()) + if delays.last() is Some { 1nat } else { 0nat }
    }
}

/// However long the front end keeps asking, a download makes at most four
/// requests, one and three retries: over any run of steps from a fresh
/// plan, at most four of them start an attempt, and the plan counts exactly
/// those.
pub proof fn lemma_at_most_four_attempts(states: Seq<RetryPlan>, delays: Seq<Option<u64>>)
    requires
        states.len() == delays.len() + 1,
        states[0].attempts() == 0,
        forall|i: int| 0 <= i < delays.len() ==> #[trigger] attempt_step(states[i], states[i + 1], delays[i]),
    ensures
        started(delays) == states.last().attempts(),
        started(delays) <= AUDIO_ATTEMPTS,
    decreases delays.len(),
{
    if delays.len() > 0 {
        let n = delays.len() - 1;
        let fewer = states.take(states.len() - 1);
        assert forall|i: int| 0 <= i < delays.drop_last().len() implies #[trigger] attempt_step(fewer[i], fewer[i + 1], delays.drop_last()[i]) by {
            assert(attempt_step(states[i], states[i + 1], delays[i]));
        }
        lemma_at_most_four_attempts(fewer, delays.drop_last());
        assert(attempt_step(states[n], states[n + 1], delays[n]));
        assert(fewer.last() == states[n]);
    }
}

/// The message recorded when the audio of format `format_id` could not be
/// downloaded.
pub open spec fn spec_format_error(format_id: u32, err: Seq<char>) -> Seq<char> {
    "format "@ + decimal(format_id as nat) + ": "@ + err
}

/// The formats tried for a whole-track download, in fallback order.
pub struct FormatPlan {
    chain: &'static [u32],
    next: usize,
    last_err: String,
}

impl FormatPlan {
    /// The formats to try, in order.
    pub closed spec fn chain(&self) -> Seq<u32> {
        self.chain@
    }

    /// How many formats have been taken up.
    pub closed spec fn tried(&self) -> nat {
        self.next as nat
    }

    /// The message reported if no format can be downloaded.
    pub closed spec fn last_error(&self) -> Seq<char> {
        self.last_err@
    }

    /// The plan keeps its position within the chain.
    #[verifier::type_invariant]
    spec fn wf(&self) -> bool {
        self.next <= self.chain@.len()
    }

    /// A plan for a track asked for in `preferred_format`.
    pub fn new(preferred_format: u32) -> (p: FormatPlan)
        ensures
            p.chain() == spec_fallback_chain(preferred_format),
            p.tried() == 0,
            p.last_error() == "No format available"@,
    {
        FormatPlan {
            chain: format_fallback_chain(preferred_format),
            next: 0,
            last_err: "No format available".to_owned(),
        }
    }

    /// The next format to try, in chain order; `None` once the chain is used
    /// up. A format whose URL cannot be had is simply passed over.
    pub fn next_format(&mut self) -> (f: Option<u32>)
        ensures
            final(self).tried() <= final(self).chain().len(),
            final(self).chain() == old(self).chain(),
            final(self).last_error() == old(self).last_error(),
            chain_step(old(self).chain(), old(self).tried(), final(self).tried(), f),
    {
        proof {
            use_type_invariant(&*self);
        }
        if self.next < self.chain.len() {
            let f: u32 = self.chain[self.next];
            self.next = self.next + 1;
            Some(f)
        } else {
            None
        }
    }

    /// The audio of `format_id` could not be downloaded, for reason `err`.
    pub fn download_failed(&mut self, format_id: u32, err: &str)
        ensures
            final(self).chain() == old(self).chain(),
            final(self).tried() == old(self).tried(),
            final(self).last_error() == spec_format_error(format_id, err@),
    {
        proof {
            use_type_invariant(&*self);
        }
        let mut m = "format ".to_owned();
        push_decimal(&mut m, format_id as u64);
        push_str(&mut m, ": ");
        push_str(&mut m, err);
        self.last_err = m;
    }

    /// The error of a download for which no format worked.
    pub fn into_error(self) -> (e: String)
        ensures
            e@ == self.last_error(),
    {
        self.last_err
    }
}

/// What to do with the current track of an album download.
#[derive(Debug, Clone, Copy, PartialEq, Eq, Structural)]
pub enum TrackAction {
    /// The track is already in the cache: go on with the next one.
    Skip,
    /// Download the track after waiting this many seconds.
    Download(u64),
}

/// The message of a track given up.
pub open spec fn spec_skipped_message(title: Seq<char>, err: Seq<char>) -> Seq<char> {
    "Skipped \""@ + title + "\": "@ + err
}

/// The message closing an album download in which some tracks failed.
pub open spec fn spec_failed_count_message(failed: nat) -> Seq<char> {
    decimal(failed) + " track(s) failed to download"@
}

/// The batch download of an album's tracks into the cache, in album order:
/// cached tracks are passed over, each other track gets up to three
/// attempts, two and then four seconds apart, and a track still failing is
/// skipped with a message.
pub struct AlbumDownload {
    total: usize,
    index: usize,
    attempt: u64,
    failed: usize,
}

impl AlbumDownload {
    /// Number of tracks of the album.
    pub closed spec fn total(&self) -> usize {
        self.total
    }

    /// Index of the current track.
    pub closed spec fn index(&self) -> usize {
        self.index
    }

    /// Attempts made at the current track.
    pub closed spec fn attempt(&self) -> u64 {
        self.attempt
    }

    /// Tracks given up so far.
    pub closed spec fn failed(&self) -> usize {
        self.failed
    }

    /// Attempts stay below the limit; the tracks given up are among those
    /// handled, which are among those of the album.
    #[verifier::type_invariant]
    spec fn wf(&self) -> bool {
        &&& self.attempt < ALBUM_TRACK_ATTEMPTS
        &&& self.failed <= self.index
        &&& self.index <= self.total
    }

    /// A download of `total` tracks, none handled yet.
    pub fn new(total: usize) -> (d: AlbumDownload)
        ensures
            d.total() == total,
            d.index() == 0,
            d.attempt() == 0,
            d.failed() == 0,
    {
        AlbumDownload { total, index: 0, attempt: 0, failed: 0 }
    }

    /// Whether every track has been handled.
    pub fn is_over(&self) -> (b: bool)
        ensures
            b == (self.index() >= self.total()),
    {
        self.index >= self.total
    }

    /// Begin the current track, which is (`cached`) or is not in the cache.
    /// A cached track is passed over with a progress message.
    pub fn start_track<Buf>(&mut self, cached: bool) -> (r: (TrackAction, Vec<AppMessage<Buf>>))
        requires
            old(self).index() < old(self).total(),
        ensures
            final(self).total() == old(self).total(),
            final(self).failed() == old(self).failed(),
            final(self).attempt() == 0,
            cached ==> {
                &&& r.0 == TrackAction::Skip
                &&& r.1@.len() == 1
                &&& r.1@[0] == AppMessage::<Buf>::DownloadProgress((old(self).index() + 1) as usize, old(self).total())
                &&& final(self).index() == old(self).index() + 1
            },
            !cached ==> r.0 == TrackAction::Download(0) && r.1@.len() == 0 && final(self).index() == old(self).index(),
    {
        proof {
            use_type_invariant(&*self);
        }
        self.attempt = 0;
        let mut msgs: Vec<AppMessage<Buf>> = Vec::new();
        if cached {
            msgs.push(AppMessage::DownloadProgress(self.index + 1, self.total));
            self.index = self.index + 1;
            (TrackAction::Skip, msgs)
        } else {
            (TrackAction::Download(0), msgs)
        }
    }

    /// The current track was downloaded (and stored in the cache).
    pub fn track_done<Buf>(&mut self) -> (msgs: Vec<AppMessage<Buf>>)
        requires
            old(self).index() < old(self).total(),
        ensures
            final(self).total() == old(self).total(),
            final(self).failed() == old(self).failed(),
            final(self).index() == old(self).index() + 1,
            final(self).attempt() == 0,
            msgs@.len() == 1,
            msgs@[0] == AppMessage::<Buf>::DownloadProgress((old(self).index() + 1) as usize, old(self).total()),
    {
        proof {
            use_type_invariant(&*self);
        }
        let mut msgs: Vec<AppMessage<Buf>> = Vec::new();
        msgs.push(AppMessage::DownloadProgress(self.index + 1, self.total));
        self.index = self.index + 1;
        self.attempt = 0;
        msgs
    }

    /// The current attempt at track `title` failed with `err`: try again
    /// after `2 * k` seconds for the `k`-th retry, or give the track up with
    /// a progress and a skip message after the third attempt.
    pub fn attempt_failed<Buf>(&mut self, title: &str, err: &str) -> (r: (Option<TrackAction>, Vec<AppMessage<Buf>>))
        requires
            old(self).index() < old(self).total(),
        ensures
            final(self).total() == old(self).total(),
            old(self).attempt() + 1 < ALBUM_TRACK_ATTEMPTS ==> {
                &&& r.0 == Some(TrackAction::Download((2 * (old(self).attempt() + 1)) as u64))
                &&& r.1@.len() == 0
                &&& final(self).attempt() == old(self).attempt() + 1
                &&& final(self).index() == old(self).index()
                &&& final(self).failed() == old(self).failed()
            },
            old(self).attempt() + 1 >= ALBUM_TRACK_ATTEMPTS ==> {
                &&& r.0 is None
                &&& r.1@.len() == 2
                &&& r.1@[0] == AppMessage::<Buf>::DownloadProgress((old(self).index() + 1) as usize, old(self).total())
                &&& r.1@[1] matches AppMessage::DownloadError(m) && m@ == spec_skipped_message(title@, err@)
                &&& final(self).attempt() == 0
                &&& final(self).index() == old(self).index() + 1
                &&& final(self).failed() == old(self).failed() + 1
            },
            final(self).attempt() < ALBUM_TRACK_ATTEMPTS,
            final(self).failed() <= final(self).index(),
    {
        proof {
            use_type_invariant(&*self);
        }
        let mut msgs: Vec<AppMessage<Buf>> = Vec::new();
        if self.attempt + 1 < ALBUM_TRACK_ATTEMPTS {
            self.attempt = self.attempt + 1;
            (Some(TrackAction::Download(2 * self.attempt)), msgs)
        } else {
            msgs.push(AppMessage::DownloadProgress(self.index + 1, self.total));
            let mut m = concat("Skipped \"", title);
            push_str(&mut m, "\": ");
            push_str(&mut m, err);
            msgs.push(AppMessage::DownloadError(m));
            self.index = self.index + 1;
            self.failed = self.failed + 1;
            self.attempt = 0;
            (None, msgs)
        }
    }

    /// The messages closing the download: done, and the number of tracks
    /// given up when there are any.
    pub fn finish<Buf>(&self) -> (msgs: Vec<AppMessage<Buf>>)
        ensures
            msgs@.len() >= 1,
            msgs@[0] == AppMessage::<Buf>::DownloadDone,
            self.failed() == 0 ==> msgs@.len() == 1,
            self.failed() > 0 ==> msgs@.len() == 2 && (msgs@[1] matches AppMessage::DownloadError(m) && m@ == spec_failed_count_message(self.failed() as nat)),
    {
        let mut msgs: Vec<AppMessage<Buf>> = Vec::new();
        msgs.push(AppMessage::DownloadDone);
        if self.failed > 0 {
            let mut m = String::new();
            push_decimal(&mut m, self.failed as u64);
            push_str(&mut m, " track(s) failed to download");
            msgs.push(AppMessage::DownloadError(m));
        }
        msgs
    }
}

} // verus!
