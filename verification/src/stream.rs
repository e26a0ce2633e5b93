//! The state shared by the two ends of a progressive download: the bytes
//! received so far and whether the download has finished, with the read and
//! seek rules of the consuming decoder.
use vstd::prelude::*;
use vstd::rwlock::{RwLock, RwLockPredicate};
use std::sync::Arc;

verus! {

/// Largest number of bytes reserved up front for a download.
pub const MAX_PREALLOCATION: u64 = 52428800;

/// Bytes received so far by a progressive download, and whether it is over.
pub struct StreamState {
    data: Vec<u8>,
    complete: bool,
}

/// What a read at some position finds.
#[derive(Debug, Clone, Copy, PartialEq, Eq, Structural)]
pub enum ReadOutcome {
    /// This many bytes were copied into the buffer.
    Copied(usize),
    /// The download is over and every byte has been read.
    EndOfStream,
    /// No byte is available yet; the reader must wait for the writer.
    Pending,
}

/// Origin of a seek, as `std::io::SeekFrom`.
#[derive(Debug, Clone, Copy, PartialEq, Eq, Structural)]
pub enum SeekOrigin {
    Start(u64),
    Current(i64),
    End(i64),
}

/// Why a seek was refused.
#[derive(Debug, Clone, Copy, PartialEq, Eq, Structural)]
pub enum SeekError {
    /// A position does not fit the signed or pointer-sized range.
    PositionOverflow,
    /// The target position overflows.
    SeekOverflow,
    /// The stream length does not fit the signed range.
    LengthOverflow,
    /// The target position is before the start of the stream.
    BeforeStart,
}

impl SeekError {
    /// The message of the I/O error reported for this refusal.
    pub fn message(&self) -> (m: &'static str)
        ensures
            m@ == spec_seek_error_message(*self),
    {
        match self {
            SeekError::PositionOverflow => "position overflow",
            SeekError::SeekOverflow => "seek overflow",
            SeekError::LengthOverflow => "length overflow",
            SeekError::BeforeStart => "seek before start",
        }
    }
}

/// The message of the I/O error reported for a refused seek.
pub open spec fn spec_seek_error_message(e: SeekError) -> Seq<char> {
    match e {
        SeekError::PositionOverflow => "position overflow"@,
        SeekError::SeekOverflow => "seek overflow"@,
        SeekError::LengthOverflow => "length overflow"@,
        SeekError::BeforeStart => "seek before start"@,
    }
}

/// Length used for seeks relative to the end: the announced total size when
/// it is known (non-zero), else the bytes received so far.
pub open spec fn spec_end_length(total_size: u64, received: nat) -> int {
    if total_size > 0 {
        total_size as int
    } else {
        received as int
    }
}

/// Result of a seek: the new position, or why it is refused.
pub open spec fn spec_seek(origin: SeekOrigin, position: usize, total_size: u64, received: nat) -> Result<usize, SeekError> {
    let base: Result<int, SeekError> = match origin {
        SeekOrigin::Start(n) => {
            if n > i64::MAX {
                Err(SeekError::PositionOverflow)
            } else {
                Ok(n as int)
            }
        },
        SeekOrigin::Current(n) => {
            if position > i64::MAX {
                Err(SeekError::PositionOverflow)
            } else if position + n > i64::MAX || position + n < i64::MIN {
                Err(SeekError::SeekOverflow)
            } else {
                Ok(position + n)
            }
        },
        SeekOrigin::End(n) => {
            let len = spec_end_length(total_size, received);
            if len > i64::MAX {
                Err(SeekError::LengthOverflow)
            } else if len + n > i64::MAX || len + n < i64::MIN {
                Err(SeekError::SeekOverflow)
            } else {
                Ok(len + n)
            }
        },
    };
    match base {
        Err(e) => Err(e),
        Ok(b) => {
            if b < 0 {
                Err(SeekError::BeforeStart)
            } else if b > usize::MAX {
                Err(SeekError::PositionOverflow)
            } else {
                Ok(b as usize)
            }
        },
    }
}

/// Compute the position that a seek moves to, for a reader at `position` of
/// a stream announced as `total_size` bytes (0 when unknown) of which
/// `received` bytes have arrived.
pub fn seek_position(origin: SeekOrigin, position: usize, total_size: u64, received: usize) -> (r: Result<usize, SeekError>)
    ensures
        r == spec_seek(origin, position, total_size, received as nat),
{
    let base: i64 = match origin {
        SeekOrigin::Start(n) => {
            if n > (i64::MAX as u64) {
                return Err(SeekError::PositionOverflow);
            }
            n as i64
        },
        SeekOrigin::Current(n) => {
            if position as u64 > (i64::MAX as u64) {
                return Err(SeekError::PositionOverflow);
            }
            let p: i64 = position as i64;
            match p.checked_add(n) {
                Some(b) => b,
                None => return Err(SeekError::SeekOverflow),
            }
        },
        SeekOrigin::End(n) => {
            let len: u64 = if total_size > 0 {
                total_size
            } else {
                received as u64
            };
            if len > (i64::MAX as u64) {
                return Err(SeekError::LengthOverflow);
            }
            let l: i64 = len as i64;
            match l.checked_add(n) {
                Some(b) => b,
                None => return Err(SeekError::SeekOverflow),
            }
        },
    };
    if base < 0 {
        return Err(SeekError::BeforeStart);
    }
    if base as u64 > usize::MAX as u64 {
        return Err(SeekError::PositionOverflow);
    }
    Ok(base as usize)
}

/// Number of bytes buffered before playback may start: a tenth of the file,
/// kept between 64 KiB and 256 KiB.
pub open spec fn spec_stream_threshold(total_size: u64) -> int {
    let tenth: u64 = total_size / 10;
    if tenth < 65536 {
        65536
    } else if tenth > 262144 {
        262144
    } else {
        tenth as int
    }
}

/// Minimum data before starting playback: 10% of the file, clamped to 64-256KB.
pub fn stream_threshold(total_size: u64) -> (t: usize)
    ensures
        t == spec_stream_threshold(total_size),
{
    let tenth: u64 = total_size / 10;
    if tenth < 65536 {
        65536
    } else if tenth > 262144 {
        262144
    } else {
        tenth as usize
    }
}

/// What a read from `position` finds in `s`: when bytes have arrived
/// there, as many as fit in the buffer (which held `before`) are copied to
/// its front (giving `after`); otherwise the buffer is left alone and the
/// outcome says whether the stream is over or the reader must wait.
pub open spec fn read_step(s: StreamState, position: usize, before: Seq<u8>, r: ReadOutcome, after: Seq<u8>) -> bool {
    if position < s.received().len() {
        let n = if before.len() < s.received().len() - position {
            before.len() as int
        } else {
            s.received().len() - position
        };
        &&& r == ReadOutcome::Copied(n as usize)
        &&& after == s.received().subrange(position as int, position + n) + before.subrange(n, before.len() as int)
    } else {
        &&& after == before
        &&& r == (if s.is_finished() { ReadOutcome::EndOfStream } else { ReadOutcome::Pending })
    }
}

impl StreamState {
    /// The bytes received so far.
    pub closed spec fn received(&self) -> Seq<u8> {
        self.data@
    }

    /// Whether the download has finished.
    pub closed spec fn is_finished(&self) -> bool {
        self.complete
    }

    /// Empty state for a download announced as `total_size` bytes; at most
    /// 50 MiB are reserved up front.
    pub fn new(total_size: u64) -> (s: StreamState)
        ensures
            s.received() == Seq::<u8>::empty(),
            !s.is_finished(),
    {
        let cap: u64 = if total_size < MAX_PREALLOCATION {
            total_size
        } else {
            MAX_PREALLOCATION
        };
        StreamState { data: Vec::with_capacity(cap as usize), complete: false }
    }

    /// Append a chunk of downloaded data.
    pub fn write(&mut self, chunk: &[u8])
        ensures
            final(self).received() == old(self).received() + chunk@,
            final(self).is_finished() == old(self).is_finished(),
    {
        self.data.extend_from_slice(chunk);
        assert(self.data@ =~= old(self).data@ + chunk@);
    }

    /// Mark the download as complete (signals EOF to the reader).
    pub fn finish(&mut self)
        ensures
            final(self).received() == old(self).received(),
            final(self).is_finished(),
    {
        self.complete = true;
    }

    /// How many bytes have been downloaded so far.
    pub fn downloaded(&self) -> (n: usize)
        ensures
            n == self.received().len(),
    {
        self.data.len()
    }

    /// Whether the download has finished.
    pub fn is_complete(&self) -> (b: bool)
        ensures
            b == self.is_finished(),
    {
        self.complete
    }

    /// A copy of all downloaded data (for caching after completion).
    pub fn get_data(&self) -> (d: Vec<u8>)
        ensures
            d@ == self.received(),
    {
        let d = self.data.clone();
        assert(d@ =~= self.data@);
        d
    }

    /// Read from `position` into `buf`: copy as many available bytes as fit,
    /// report the end of the stream once everything has been read after the
    /// download finished, or report that the reader must wait.
    pub fn read_at(&self, position: usize, buf: &mut [u8]) -> (r: ReadOutcome)
        ensures
            read_step(*self, position, old(buf)@, r, final(buf)@),
            r matches ReadOutcome::Copied(n) ==> {
                &&& n <= old(buf)@.len()
                &&& old(buf)@.len() > 0 ==> n > 0
                &&& position + n <= usize::MAX
                &&& final(buf)@.subrange(n as int, old(buf)@.len() as int) == old(buf)@.subrange(n as int, old(buf)@.len() as int)
            },
    {
        let len: usize = self.data.len();
        if position < len {
            let available: usize = len - position;
            let to_read: usize = if buf.len() < available {
                buf.len()
            } else {
                available
            };
            let mut i: usize = 0;
            while i < to_read
                invariant
                    to_read <= buf.len(),
                    position + to_read <= self.data.len(),
                    buf@.len() == old(buf)@.len(),
                    i <= to_read,
                    forall|j: int| 0 <= j < i ==> buf@[j] == self.data@[position + j],
                    forall|j: int| i <= j < buf@.len() ==> buf@[j] == old(buf)@[j],
                decreases to_read - i,
            {
                buf[i] = self.data[position + i];
                i = i + 1;
            }
            assert(buf@ =~= self.data@.subrange(position as int, position + to_read) + old(buf)@.subrange(to_read as int, old(buf)@.len() as int));
            assert(buf@.subrange(to_read as int, buf@.len() as int) =~= old(buf)@.subrange(to_read as int, old(buf)@.len() as int));
            ReadOutcome::Copied(to_read)
        } else if self.complete {
            ReadOutcome::EndOfStream
        } else {
            ReadOutcome::Pending
        }
    }
}

/// The lock of a stream admits every state: the writer appends, the reader
/// only reads.
pub struct AnyStreamState;

impl RwLockPredicate<StreamState> for AnyStreamState {
    open spec fn inv(self, s: StreamState) -> bool {
        true
    }
}

/// The lock that the two ends of a stream share.
pub type SharedStream = RwLock<StreamState, AnyStreamState>;

/// `Arc::clone`: a second handle on the same allocation, so the pointee is
/// the very same lock.
#[verifier::external_body]
fn share(a: &Arc<SharedStream>) -> (r: Arc<SharedStream>)
    ensures
        *r == **a,
{
    Arc::clone(a)
}

/// Writer side, fed by the download task.
pub struct StreamWriter {
    shared: Arc<SharedStream>,
}

/// Reader side, consumed by the audio decoder.
pub struct StreamingBuffer {
    shared: Arc<SharedStream>,
    position: usize,
    total_size: u64,
}

/// Create a linked (writer, reader) pair for streaming audio.
/// `total_size` should be the Content-Length (used for `SeekOrigin::End`).
pub fn new_streaming_pair(total_size: u64) -> (r: (StreamWriter, StreamingBuffer))
    ensures
        r.0.lock() == r.1.lock(),
        r.1.position() == 0,
        r.1.total_size() == total_size,
{
    let state = StreamState::new(total_size);
    let lock = Arc::new(RwLock::new(state, Ghost(AnyStreamState)));
    let writer = StreamWriter { shared: share(&lock) };
    (writer, StreamingBuffer { shared: lock, position: 0, total_size })
}

impl StreamWriter {
    /// The lock shared with the reader.
    pub closed spec fn lock(&self) -> SharedStream {
        *self.shared
    }

    /// Append a chunk of downloaded data.
    pub fn write(&self, chunk: &[u8]) {
        let (mut state, handle) = self.shared.acquire_write();
        state.write(chunk);
        handle.release_write(state);
    }

    /// Mark the download as complete (signals EOF to the reader).
    pub fn finish(&self) {
        let (mut state, handle) = self.shared.acquire_write();
        state.finish();
        handle.release_write(state);
    }

    /// How many bytes have been downloaded so far.
    pub fn downloaded(&self) -> usize {
        let handle = self.shared.acquire_read();
        let n: usize = handle.borrow().downloaded();
        handle.release_read();
        n
    }

    /// Clone all downloaded data (for caching after completion).
    pub fn get_data(&self) -> Vec<u8> {
        let handle = self.shared.acquire_read();
        let d = handle.borrow().get_data();
        handle.release_read();
        d
    }
}

impl StreamingBuffer {
    /// The lock shared with the writer.
    pub closed spec fn lock(&self) -> SharedStream {
        *self.shared
    }

    /// The reading position.
    pub closed spec fn position(&self) -> usize {
        self.position
    }

    /// The announced size of the stream (0 when unknown).
    pub closed spec fn total_size(&self) -> u64 {
        self.total_size
    }

    /// Read from the current position into `buf` and advance past the bytes
    /// copied; `Pending` when no byte has arrived there yet and the download
    /// goes on, `EndOfStream` once everything has been read.
    pub fn read(&mut self, buf: &mut [u8]) -> (r: ReadOutcome)
        ensures
            final(self).lock() == old(self).lock(),
            final(self).total_size() == old(self).total_size(),
            final(buf)@.len() == old(buf)@.len(),
            match r {
                ReadOutcome::Copied(n) => {
                    &&& n <= old(buf)@.len()
                    &&& old(buf)@.len() > 0 ==> n > 0
                    &&& final(self).position() == old(self).position() + n
                    &&& final(buf)@.subrange(n as int, old(buf)@.len() as int) == old(buf)@.subrange(n as int, old(buf)@.len() as int)
                },
                _ => final(self).position() == old(self).position() && final(buf)@ == old(buf)@,
            },
    {
        let handle = self.shared.acquire_read();
        let r = handle.borrow().read_at(self.position, buf);
        handle.release_read();
        match r {
            ReadOutcome::Copied(n) => {
                self.position = self.position + n;
            },
            _ => {},
        }
        r
    }
}

/// Whether a seek from `origin` depends on how many bytes have arrived: only
/// a seek from the end of a stream of unknown size does.
pub open spec fn depends_on_received(origin: SeekOrigin, total_size: u64) -> bool {
    origin is End && total_size == 0
}

/// The outcome of a seek as the reader reports it: the new position, or the
/// refusal, the position then staying where it was.
pub open spec fn seek_reported(s: Result<usize, SeekError>, r: Result<u64, SeekError>, new_position: usize, old_position: usize) -> bool {
    match s {
        Ok(p) => r == Ok::<u64, SeekError>(p as u64) && new_position == p,
        Err(e) => r == Err::<u64, SeekError>(e) && new_position == old_position,
    }
}

impl StreamingBuffer {
    /// Move the reading position. Only a seek from the end of a stream whose
    /// size is unknown looks at the bytes received so far; it never waits.
    pub fn seek(&mut self, origin: SeekOrigin) -> (r: Result<u64, SeekError>)
        ensures
            final(self).lock() == old(self).lock(),
            final(self).total_size() == old(self).total_size(),
            !depends_on_received(origin, old(self).total_size()) ==> seek_reported(
                spec_seek(origin, old(self).position(), old(self).total_size(), 0),
                r,
                final(self).position(),
                old(self).position(),
            ),
            exists|received: nat| seek_reported(
                #[trigger] spec_seek(origin, old(self).position(), old(self).total_size(), received),
                r,
                final(self).position(),
                old(self).position(),
            ),
    {
        let received: usize = match origin {
            SeekOrigin::End(_) => {
                if self.total_size == 0 {
                    let handle = self.shared.acquire_read();
                    let n: usize = handle.borrow().downloaded();
                    handle.release_read();
                    n
                } else {
                    0
                }
            },
            _ => 0,
        };
        let s = seek_position(origin, self.position, self.total_size, received);
        assert(spec_seek(origin, self.position, self.total_size, 0) == s || depends_on_received(origin, self.total_size));
        match s {
            Ok(p) => {
                self.position = p;
                Ok(p as u64)
            },
            Err(e) => Err(e),
        }
    }
}

/// The chunks of a download, joined in order.
pub open spec fn joined_chunks(chunks: Seq<Seq<u8>>) -> Seq<u8>
    decreases chunks.len(),
{
    if chunks.len() == 0 {
        Seq::empty()
    } else {
        joined_chunks(chunks.drop_last()) + chunks.last()
    }
}

/// Successive writes keep every byte in order: after writing `chunks` one
/// after the other, the stream holds what it held before followed by the
/// chunks joined in the order they were written.
pub proof fn lemma_writes_concatenate(states: Seq<StreamState>, chunks: Seq<Seq<u8>>)
    requires
        states.len() == chunks.len() + 1,
        forall|i: int| 0 <= i < chunks.len() ==> #[trigger] states[i + 1].received() == states[i].received() + chunks[i],
    ensures
        states.last().received() == states[0].received() + joined_chunks(chunks),
    decreases chunks.len(),
{
    if chunks.len() == 0 {
        assert(states[0].received() + joined_chunks(chunks) =~= states[0].received());
    } else {
        let n = chunks.len() - 1;
        let fewer = states.take(states.len() - 1);
        assert forall|i: int| 0 <= i < chunks.drop_last().len() implies #[trigger] fewer[i + 1].received() == fewer[i].received() + chunks.drop_last()[i] by {
            assert(states[i + 1].received() == states[i].received() + chunks[i]);
        }
        lemma_writes_concatenate(fewer, chunks.drop_last());
        assert(states[n + 1].received() == states[n].received() + chunks[n]);
        assert(states.last().received() =~= states[0].received() + joined_chunks(chunks));
    }
}

/// What a read gives back of the writes: on a fresh stream that received
/// `chunks` one after the other, a read from `position` copies to the front
/// of the buffer exactly the bytes written there, in the order written; a
/// read past them copies nothing.
pub proof fn lemma_read_returns_written(
    states: Seq<StreamState>,
    chunks: Seq<Seq<u8>>,
    position: usize,
    before: Seq<u8>,
    r: ReadOutcome,
    after: Seq<u8>,
)
    requires
        states.len() == chunks.len() + 1,
        states[0].received() == Seq::<u8>::empty(),
        forall|i: int| 0 <= i < chunks.len() ==> #[trigger] states[i + 1].received() == states[i].received() + chunks[i],
        read_step(states.last(), position, before, r, after),
    ensures
        r matches ReadOutcome::Copied(n) ==> after.take(n as int) == joined_chunks(chunks).subrange(position as int, position + n),
        !(r is Copied) ==> after == before && position >= joined_chunks(chunks).len(),
{
    lemma_writes_concatenate(states, chunks);
    assert(states[0].received() + joined_chunks(chunks) =~= joined_chunks(chunks));
    if let ReadOutcome::Copied(n) = r {
        assert(after.take(n as int) =~= joined_chunks(chunks).subrange(position as int, position + n));
    }
}

/// The bytes a read handed over: the front of the buffer that it filled, or
/// nothing.
pub open spec fn copied_bytes(r: ReadOutcome, after: Seq<u8>) -> Seq<u8> {
    match r {
        ReadOutcome::Copied(n) => after.take(n as int),
        _ => Seq::empty(),
    }
}

/// The bytes handed over by each read of a run, in order.
pub open spec fn reads_copied(outcomes: Seq<ReadOutcome>, afters: Seq<Seq<u8>>) -> Seq<Seq<u8>> {
    Seq::new(outcomes.len(), |i: int| copied_bytes(outcomes[i], afters[i]))
}

/// Where the reader stands after a read from `position`.
pub open spec fn next_position(position: usize, r: ReadOutcome) -> int {
    match r {
        ReadOutcome::Copied(n) => position + n,
        _ => position as int,
    }
}

/// `later` holds every byte that `earlier` held, at the same place: what
/// writes and the end of a download do to a stream.
pub open spec fn grows_to(earlier: StreamState, later: StreamState) -> bool {
    &&& earlier.received().len() <= later.received().len()
    &&& later.received().take(earlier.received().len() as int) == earlier.received()
}

/// Writing a chunk or finishing lets the stream grow.
pub proof fn lemma_write_and_finish_grow(before: StreamState, after: StreamState, chunk: Seq<u8>)
    ensures
        after.received() == before.received() + chunk ==> grows_to(before, after),
        after.received() == before.received() ==> grows_to(before, after),
{
    if after.received() == before.received() + chunk {
        assert(after.received().take(before.received().len() as int) =~= before.received());
    }
    if after.received() == before.received() {
        assert(after.received().take(before.received().len() as int) =~= before.received());
    }
}

/// The bytes received before read `j` of a run (none before the first).
pub open spec fn seen_before(states: Seq<StreamState>, j: int) -> Seq<u8> {
    if j == 0 {
        Seq::empty()
    } else {
        states[j - 1].received()
    }
}

/// The requirements of a run of reads from the start of a stream that only
/// grows between them.
pub open spec fn is_read_run(
    states: Seq<StreamState>,
    positions: Seq<usize>,
    befores: Seq<Seq<u8>>,
    outcomes: Seq<ReadOutcome>,
    afters: Seq<Seq<u8>>,
) -> bool {
    &&& states.len() == outcomes.len()
    &&& befores.len() == outcomes.len()
    &&& afters.len() == outcomes.len()
    &&& positions.len() == outcomes.len() + 1
    &&& positions[0] == 0
    &&& forall|i: int| 0 <= i < outcomes.len() - 1 ==> grows_to(#[trigger] states[i], states[i + 1])
    &&& forall|i: int|
        0 <= i < outcomes.len() ==> read_step(#[trigger] states[i], positions[i], befores[i], outcomes[i], afters[i])
    &&& forall|i: int| 0 <= i < outcomes.len() ==> positions[i + 1] == next_position(#[trigger] positions[i], outcomes[i])
}

proof fn lemma_seen_grows(states: Seq<StreamState>, j: int)
    requires
        0 <= j < states.len(),
        forall|i: int| 0 <= i < states.len() - 1 ==> grows_to(#[trigger] states[i], states[i + 1]),
    ensures
        seen_before(states, j).len() <= states[j].received().len(),
        states[j].received().take(seen_before(states, j).len() as int) == seen_before(states, j),
{
    if j == 0 {
        assert(states[j].received().take(0) =~= Seq::<u8>::empty());
    } else {
        assert(grows_to(states[j - 1], states[j]));
    }
}

proof fn lemma_reads_prefix(
    states: Seq<StreamState>,
    positions: Seq<usize>,
    befores: Seq<Seq<u8>>,
    outcomes: Seq<ReadOutcome>,
    afters: Seq<Seq<u8>>,
    j: int,
)
    requires
        is_read_run(states, positions, befores, outcomes, afters),
        0 <= j <= outcomes.len(),
    ensures
        positions[j] <= seen_before(states, j).len(),
        joined_chunks(reads_copied(outcomes, afters).take(j)) == seen_before(states, j).take(positions[j] as int),
    decreases j,
{
    let copied = reads_copied(outcomes, afters);
    if j == 0 {
        assert(copied.take(0) =~= Seq::<Seq<u8>>::empty());
        assert(seen_before(states, 0).take(0) =~= Seq::<u8>::empty());
    } else {
        let k = j - 1;
        lemma_reads_prefix(states, positions, befores, outcomes, afters, k);
        lemma_seen_grows(states, k);
        let s = states[k].received();
        let old_seen = seen_before(states, k);
        let p = positions[k];
        assert(read_step(states[k], p, befores[k], outcomes[k], afters[k]));
        assert(copied.take(j).drop_last() =~= copied.take(k));
        assert(copied.take(j).last() == copied_bytes(outcomes[k], afters[k]));
        assert(s.take(p as int) =~= old_seen.take(p as int)) by {
            assert forall|i: int| 0 <= i < p implies s.take(p as int)[i] == old_seen.take(p as int)[i] by {
                assert(s.take(old_seen.len() as int)[i] == s[i]);
            }
        }
        if p < s.len() {
            if let ReadOutcome::Copied(n) = outcomes[k] {
                assert(positions[j] == p + n);
                assert(s.take(p + n) =~= s.take(p as int) + afters[k].take(n as int));
            }
        } else {
            assert(positions[j] == p);
            assert(s.take(p as int) =~= s);
        }
    }
}

/// What a run of reads from the start gives back: while the writer appends
/// and may finish between the reads, the bytes that the reads hand over,
/// joined in order, are the stream's first bytes, up to where the reader
/// stands; a read reports the end of the stream, or that it must wait, only
/// once it has handed over every byte received so far, and the end only
/// after the download finished. With `lemma_writes_concatenate`, the bytes
/// read before the end are exactly the chunks written, in order.
pub proof fn lemma_reads_return_stream(
    states: Seq<StreamState>,
    positions: Seq<usize>,
    befores: Seq<Seq<u8>>,
    outcomes: Seq<ReadOutcome>,
    afters: Seq<Seq<u8>>,
)
    requires
        is_read_run(states, positions, befores, outcomes, afters),
    ensures
        outcomes.len() > 0 ==> {
            let last = states[outcomes.len() - 1].received();
            &&& positions[outcomes.len() as int] <= last.len()
            &&& joined_chunks(reads_copied(outcomes, afters)) == last.take(positions[outcomes.len() as int] as int)
        },
        forall|i: int|
            0 <= i < outcomes.len() && !(#[trigger] outcomes[i] is Copied) ==> {
                &&& joined_chunks(reads_copied(outcomes, afters).take(i)) == states[i].received()
                &&& (outcomes[i] is EndOfStream <==> states[i].is_finished())
            },
{
    let m = outcomes.len() as int;
    let copied = reads_copied(outcomes, afters);
    lemma_reads_prefix(states, positions, befores, outcomes, afters, m);
    assert(copied.take(m) =~= copied);
    assert forall|i: int| 0 <= i < outcomes.len() && !(#[trigger] outcomes[i] is Copied) implies {
        &&& joined_chunks(copied.take(i)) == states[i].received()
        &&& (outcomes[i] is EndOfStream <==> states[i].is_finished())
    } by {
        lemma_reads_prefix(states, positions, befores, outcomes, afters, i);
        lemma_seen_grows(states, i);
        assert(read_step(states[i], positions[i], befores[i], outcomes[i], afters[i]));
        let seen = seen_before(states, i);
        let s = states[i].received();
        assert(positions[i] >= s.len());
        assert(seen.len() == s.len());
        assert(seen.take(positions[i] as int) =~= seen);
        assert(s =~= seen) by {
            assert(s.take(seen.len() as int) =~= s);
        }
    }
}

/// Seeking to a position from the start lands on that position.
pub proof fn lemma_seek_start(n: u64, position: usize, total_size: u64, received: nat)
    requires
        n <= i64::MAX,
        n <= usize::MAX,
    ensures
        spec_seek(SeekOrigin::Start(n), position, total_size, received) == Ok::<usize, SeekError>(n as usize),
{
}

/// A seek relative to the current position by zero stays in place.
pub proof fn lemma_seek_current_zero(position: usize, total_size: u64, received: nat)
    requires
        position <= i64::MAX,
    ensures
        spec_seek(SeekOrigin::Current(0), position, total_size, received) == Ok::<usize, SeekError>(position),
{
}

} // verus!
