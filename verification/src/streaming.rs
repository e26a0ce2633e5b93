//! Progressive streaming with quality fallback.
//!
//! The formats of the fallback chain are tried in order. For each one the
//! front end asks for the track's URL and opens the audio response; the
//! bytes are fed to a [`StreamWriter`](crate::stream::StreamWriter) and the
//! reader is handed over for playback as soon as enough of the file has
//! arrived. [`StreamPlan`] takes every decision of that loop; the front end
//! performs the requests and reports back.
use vstd::prelude::*;
use crate::api::{chain_step, format_fallback_chain, lemma_fallback_chain_shape, spec_fallback_chain};
use crate::error::QobuzError;
use crate::player::{spec_label_of, spec_quality_of, AudioQuality};
use crate::stream::{spec_stream_threshold, stream_threshold, StreamingBuffer};

verus! {

/// Callbacks of a progressive download. Front ends implement this to receive
/// the buffer for playback and status notifications.
pub trait StreamListener: Send + Sync + 'static {
    /// Called when enough data is buffered to start playback.
    fn on_stream_ready(
        &self,
        buffer: StreamingBuffer,
        title: String,
        artist: String,
        duration: u64,
        format_id: u32,
    );

    /// Called when quality falls back to a lower format.
    fn on_quality_fallback(&self, quality_label: &str);

    /// Called when the full download completes (data for caching).
    fn on_stream_complete(&self, data: Vec<u8>, track_id: String);

    /// Called on error.
    fn on_stream_error(&self, err: String);
}

/// Why the audio response of a format could not be used.
#[derive(Debug)]
pub enum ResponseFailure {
    /// The server answered with this non-success status.
    Status(u16),
    /// The request itself failed, with this message.
    Transport(String),
}

/// `e` is the error recorded for the failed audio response `f`: the status
/// with an empty message, or the transport's message.
pub open spec fn is_response_error(e: QobuzError, f: ResponseFailure) -> bool {
    match f {
        ResponseFailure::Status(code) => (e matches QobuzError::HttpStatus(c, m) && c == code && m@ == Seq::<char>::empty()),
        ResponseFailure::Transport(t) => e == QobuzError::Network(t),
    }
}

/// Two plans at the same place of the same chain.
pub open spec fn same_place(p: StreamPlan, q: StreamPlan) -> bool {
    &&& q.preferred() == p.preferred()
    &&& q.chain() == p.chain()
    &&& q.tried() == p.tried()
}

/// Two plans that differ at most in their recorded error.
pub open spec fn same_but_error(p: StreamPlan, q: StreamPlan) -> bool {
    &&& same_place(p, q)
    &&& q.tried_first() == p.tried_first()
    &&& q.threshold() == p.threshold()
    &&& q.sent() == p.sent()
}

/// Label announced when playback falls back to `format_id`: the quality's
/// label, or `?` for a format the service does not describe.
pub open spec fn spec_fallback_label(format_id: u32) -> Seq<char> {
    match spec_quality_of(format_id) {
        Some(q) => spec_label_of(q),
        None => "?"@,
    }
}

/// The decisions of a progressive download with quality fallback.
pub struct StreamPlan {
    preferred: u32,
    chain: &'static [u32],
    next: usize,
    tried_first: bool,
    last_err: QobuzError,
    threshold: usize,
    sent: bool,
}

impl StreamPlan {
    /// The format asked for.
    pub closed spec fn preferred(&self) -> u32 {
        self.preferred
    }

    /// The formats to try, in order.
    pub closed spec fn chain(&self) -> Seq<u32> {
        self.chain@
    }

    /// How many formats of the chain have been taken up.
    pub closed spec fn tried(&self) -> nat {
        self.next as nat
    }

    /// Whether some format has already been tried (its URL asked for).
    pub closed spec fn tried_first(&self) -> bool {
        self.tried_first
    }

    /// The error reported if no format succeeds.
    pub closed spec fn last_error(&self) -> QobuzError {
        self.last_err
    }

    /// Bytes needed before the current download is handed to playback.
    pub closed spec fn threshold(&self) -> usize {
        self.threshold
    }

    /// Whether the reader of the current download has been handed over.
    pub closed spec fn sent(&self) -> bool {
        self.sent
    }

    /// The plan keeps its position within the chain.
    #[verifier::type_invariant]
    spec fn wf(&self) -> bool {
        self.next <= self.chain@.len()
    }

    /// The format being tried: the last one taken from the chain.
    pub open spec fn current(&self) -> u32 {
        self.chain()[self.tried() - 1]
    }

    /// A plan for a track asked for in `preferred_format`.
    pub fn new(preferred_format: u32) -> (p: StreamPlan)
        ensures
            p.preferred() == preferred_format,
            p.chain() == spec_fallback_chain(preferred_format),
            p.tried() == 0,
            !p.tried_first(),
            p.last_error() == QobuzError::NoFormatAvailable,
            !p.sent(),
    {
        StreamPlan {
            preferred: preferred_format,
            chain: format_fallback_chain(preferred_format),
            next: 0,
            tried_first: false,
            last_err: QobuzError::NoFormatAvailable,
            threshold: 0,
            sent: false,
        }
    }

    /// The next format to try, in chain order; `None` once the chain is
    /// used up, and the download then fails with [`Self::last_error`].
    pub fn next_format(&mut self) -> (f: Option<u32>)
        ensures
            final(self).tried() <= final(self).chain().len(),
            final(self).preferred() == old(self).preferred(),
            final(self).chain() == old(self).chain(),
            final(self).tried_first() == old(self).tried_first(),
            final(self).last_error() == old(self).last_error(),
            final(self).sent() == old(self).sent(),
            final(self).threshold() == old(self).threshold(),
            chain_step(old(self).chain(), old(self).tried(), final(self).tried(), f),
    {
        proof {
            use_type_invariant(&*self);
        }
        if self.next < self.chain.len() {
            let f: u32 = self.chain[self.next];
            self.next = self.next + 1;
            Some(f)
        } else {
            None
        }
    }

    /// The URL of the current format could not be had: go on with the next.
    pub fn url_failed(&mut self)
        ensures
            same_place(*old(self), *final(self)),
            final(self).tried_first(),
            final(self).last_error() == old(self).last_error(),
            final(self).threshold() == old(self).threshold(),
            final(self).sent() == old(self).sent(),
    {
        proof {
            use_type_invariant(&*self);
        }
        self.tried_first = true;
    }

    /// The URL of the current format was found. Returns the label to
    /// announce when this is a fallback: a format other than the preferred
    /// one, after an earlier one was tried.
    pub fn url_found(&mut self) -> (label: Option<&'static str>)
        ensures
            same_place(*old(self), *final(self)),
            final(self).tried_first(),
            final(self).last_error() == old(self).last_error(),
            final(self).threshold() == old(self).threshold(),
            final(self).sent() == old(self).sent(),
            old(self).tried() > 0 && old(self).tried_first() && old(self).current() != old(self).preferred() ==> (label matches Some(l) && l@ == spec_fallback_label(old(self).current())),
            !(old(self).tried() > 0 && old(self).tried_first() && old(self).current() != old(self).preferred()) ==> label is None,
    {
        proof {
            use_type_invariant(&*self);
        }
        let announce = if self.next > 0 {
            let fmt: u32 = self.chain[self.next - 1];
            if self.tried_first && fmt != self.preferred {
                Some(fmt)
            } else {
                None
            }
        } else {
            None
        };
        self.tried_first = true;
        match announce {
            Some(fmt) => match AudioQuality::from_format_id(fmt) {
                Some(q) => Some(q.label()),
                None => Some("?"),
            },
            None => None,
        }
    }

    /// The audio response of the current format failed: record why and go
    /// on with the next format.
    pub fn response_failed(&mut self, failure: ResponseFailure)
        ensures
            same_but_error(*old(self), *final(self)),
            is_response_error(final(self).last_error(), failure),
    {
        proof {
            use_type_invariant(&*self);
        }
        self.last_err = match failure {
            ResponseFailure::Status(code) => QobuzError::HttpStatus(code, String::new()),
            ResponseFailure::Transport(m) => QobuzError::Network(m),
        };
    }

    /// The audio response arrived with this Content-Length, if any. Returns
    /// the size announced to the stream (0 when unknown); the download starts
    /// with nothing handed over yet.
    pub fn response_started(&mut self, content_length: Option<u64>) -> (total_size: u64)
        ensures
            total_size == (match content_length {
                Some(n) => n,
                None => 0,
            }),
            same_place(*old(self), *final(self)),
            final(self).tried_first() == old(self).tried_first(),
            final(self).last_error() == old(self).last_error(),
            final(self).threshold() == spec_stream_threshold(total_size),
            !final(self).sent(),
    {
        proof {
            use_type_invariant(&*self);
        }
        let total: u64 = match content_length {
            Some(n) => n,
            None => 0,
        };
        self.threshold = stream_threshold(total);
        self.sent = false;
        total
    }

    /// A chunk arrived and `downloaded` bytes are now held. Returns whether
    /// the reader is to be handed to playback now: the first time the
    /// threshold is reached.
    pub fn chunk_received(&mut self, downloaded: usize) -> (hand_over: bool)
        ensures
            chunk_step(*old(self), downloaded, *final(self), hand_over),
    {
        proof {
            use_type_invariant(&*self);
        }
        let hand_over = !self.sent && downloaded >= self.threshold;
        if hand_over {
            self.sent = true;
        }
        hand_over
    }

    /// The response ended, with the error message of the transfer if it
    /// broke off. Returns whether the reader is still to be handed over (it
    /// always is, once, even for a short or broken download) and whether the
    /// download succeeded; a broken download records its error and the next
    /// format is tried.
    pub fn response_ended(&mut self, error: Option<String>) -> (r: (bool, bool))
        ensures
            r.0 == !old(self).sent(),
            r.1 == (error is None),
            same_place(*old(self), *final(self)),
            final(self).tried_first() == old(self).tried_first(),
            final(self).threshold() == old(self).threshold(),
            final(self).sent(),
            final(self).last_error() == (match error {
                Some(m) => QobuzError::DownloadFailed(m),
                None => old(self).last_error(),
            }),
    {
        proof {
            use_type_invariant(&*self);
        }
        let hand_over = !self.sent;
        self.sent = true;
        match error {
            Some(m) => {
                self.last_err = QobuzError::DownloadFailed(m);
                (hand_over, false)
            },
            None => (hand_over, true),
        }
    }

    /// The error to report once every format has failed.
    pub fn into_error(self) -> (e: QobuzError)
        ensures
            e == self.last_error(),
    {
        self.last_err
    }
}

/// What a found URL can announce, on the chain that [`StreamPlan::new`]
/// sets up: the first format taken is the one asked for whenever the service
/// knows that format, so it is never announced; a format announced as a
/// fallback is of lower quality than the one asked for; and its label always
/// names a quality, never `?`.
pub proof fn lemma_fallback_announcement(p: StreamPlan)
    requires
        p.chain() == spec_fallback_chain(p.preferred()),
        0 < p.tried() <= p.chain().len(),
    ensures
        (p.preferred() == 27 || p.preferred() == 7 || p.preferred() == 6 || p.preferred() == 5)
            && p.tried() == 1 ==> p.current() == p.preferred(),
        (p.preferred() == 27 || p.preferred() == 7 || p.preferred() == 6 || p.preferred() == 5)
            && p.current() != p.preferred() ==> p.current() < p.preferred(),
        spec_quality_of(p.current()) matches Some(q) && spec_fallback_label(p.current()) == spec_label_of(q),
{
    lemma_fallback_chain_shape(p.preferred());
    let c = p.chain();
    let i = p.tried() - 1;
    assert(spec_quality_of(c[i]) is Some);
    if (p.preferred() == 27 || p.preferred() == 7 || p.preferred() == 6 || p.preferred() == 5) && i > 0 {
        assert(c[0] > c[i]);
    }
}

/// One chunk step: `q` is `p` after a chunk that brought the download to
/// `downloaded` bytes, and `hand_over` tells whether the reader went to
/// playback then.
pub open spec fn chunk_step(p: StreamPlan, downloaded: usize, q: StreamPlan, hand_over: bool) -> bool {
    &&& hand_over == (!p.sent() && downloaded >= p.threshold())
    &&& same_place(p, q)
    &&& q.tried_first() == p.tried_first()
    &&& q.last_error() == p.last_error()
    &&& q.threshold() == p.threshold()
    &&& q.sent() == (p.sent() || hand_over)
}

/// Number of `true` in a sequence.
pub open spec fn count_true(s: Seq<bool>) -> nat
    decreases s.len(),
{
    if s.len() == 0 {
        0
    } else {
        count_true(s.drop_last()) + if s.last() { 1nat } else { 0nat }
    }
}

/// The reader of a download goes to playback exactly once: over the chunks
/// of a response (from its start, when nothing was handed over) and its end,
/// one chunk hands it over, or else the end does.
pub proof fn lemma_hand_over_once(states: Seq<StreamPlan>, downloads: Seq<usize>, answers: Seq<bool>)
    requires
        states.len() == downloads.len() + 1,
        answers.len() == downloads.len(),
        !states[0].sent(),
        forall|i: int| 0 <= i < downloads.len() ==> #[trigger] chunk_step(states[i], downloads[i], states[i + 1], answers[i]),
    ensures
        count_true(answers) + (if !states.last().sent() { 1nat } else { 0nat }) == 1,
    decreases downloads.len(),
{
    if downloads.len() == 0 {
    } else {
        let n = downloads.len() - 1;
        let fewer = states.take(states.len() - 1);
        assert forall|i: int| 0 <= i < downloads.drop_last().len() implies #[trigger] chunk_step(fewer[i], downloads.drop_last()[i], fewer[i + 1], answers.drop_last()[i]) by {
            assert(chunk_step(states[i], downloads[i], states[i + 1], answers[i]));
        }
        lemma_hand_over_once(fewer, downloads.drop_last(), answers.drop_last());
        assert(chunk_step(states[n], downloads[n], states[n + 1], answers[n]));
        assert(fewer.last() == states[n]);
    }
}

} // verus!
