use vstd::math::max;
use vstd::math::min;
use vstd::pervasive::VecAdditionalExecFns;
use vstd::prelude::*;

verus! {

/// A fault surfaced by a stream: either the byte source failed mid-transfer,
/// or a seek would land before the start of the stream.  Reaching the end of
/// the data is not an error; it is reported as a read of zero bytes.
#[derive(Clone, Debug, PartialEq, Eq)]
pub enum StreamError {
    /// The underlying transport failed; the message is passed through
    /// unchanged.
    Transport(String),
    /// A seek was asked to move to a negative position, or past the largest
    /// representable offset.
    OutOfRangeSeek,
}

/// Where a seek is measured from.
#[derive(Clone, Copy, Debug, PartialEq, Eq, Structural)]
pub enum SeekFrom {
    /// An absolute offset from the start of the stream.
    Start(u64),
    /// A signed offset from the end of the bytes loaded so far.
    End(i64),
    /// A signed offset from the current cursor.
    Current(i64),
}

/// A forward-only, chunked, fallible producer of bytes.  It cannot rewind:
/// every byte is handed out exactly once, and `emitted` records all bytes
/// handed out so far, in order.
pub trait ByteSource: Sized {
    /// All bytes the source has handed out so far, in order.  The default
    /// stands for sources whose history is not modelled, such as ones
    /// implemented outside this library.
    open spec fn emitted(&self) -> Seq<u8> {
        Seq::empty()
    }

    /// Whether the source has reported end-of-data.  The default stands for
    /// sources whose state is not modelled.
    open spec fn done(&self) -> bool {
        false
    }

    /// The bytes the source still has to hand out, in order.  The default
    /// stands for sources whose future is not modelled, such as a network
    /// delivery: an empty remainder permits reporting end-of-data at any
    /// time.
    open spec fn pending(&self) -> Seq<u8> {
        Seq::empty()
    }

    /// Whether a read may fail at all.  The default stands for sources that
    /// can fail mid-stream; a source of bytes already in memory can refuse
    /// it and thereby promise that every read succeeds.
    open spec fn fallible(&self) -> bool {
        true
    }

    /// Reads up to `buf.len()` bytes into the front of `buf` and returns how
    /// many were written.  The bytes written are the next pending bytes, in
    /// order.  A return of zero means end-of-data, given only with nothing
    /// pending, and once the source is done it stays done and keeps
    /// returning zero.  A shorter read than requested does not by itself
    /// mean end-of-data.
    fn read(&mut self, buf: &mut Vec<u8>) -> (r: Result<usize, StreamError>)
        requires
            old(buf)@.len() > 0,
        ensures
            final(buf)@.len() == old(buf)@.len(),
            match r {
                Ok(n) => {
                    &&& n <= old(buf)@.len()
                    &&& final(self).emitted() == old(self).emitted() + final(buf)@.subrange(
                        0,
                        n as int,
                    )
                    &&& n <= old(self).pending().len()
                    &&& final(buf)@.subrange(0, n as int) == old(self).pending().take(n as int)
                    &&& final(self).pending() == old(self).pending().skip(n as int)
                    &&& (n == 0 ==> final(self).done() && old(self).pending().len() == 0)
                    &&& (old(self).done() ==> n == 0 && *final(self) == *old(self))
                    &&& (n > 0 ==> final(self).done() == old(self).done())
                    &&& final(self).fallible() == old(self).fallible()
                },
                Err(e) => {
                    &&& e is Transport
                    &&& *final(self) == *old(self)
                    &&& !old(self).done()
                    &&& old(self).fallible()
                },
            },
    ;
}

/// The views of a list of chunks.
pub open spec fn chunk_views(chunks: Seq<Vec<u8>>) -> Seq<Seq<u8>> {
    chunks.map_values(|c: Vec<u8>| c@)
}

/// The bytes still to come from `chunks[i..]`, the first `skip` bytes of
/// the chunk at `i` already handed out: the chunks' remaining bytes joined
/// in order, cut short at the first empty chunk, which marks end-of-data.
pub open spec fn chunks_pending(chunks: Seq<Seq<u8>>, i: int, skip: int) -> Seq<u8>
    decreases chunks.len() - i,
{
    if i < 0 || i >= chunks.len() {
        Seq::empty()
    } else if chunks[i].len() == 0 {
        Seq::empty()
    } else if skip >= chunks[i].len() {
        chunks_pending(chunks, i + 1, 0)
    } else {
        chunks[i].skip(skip) + chunks_pending(chunks, i + 1, 0)
    }
}

/// A byte source fed from a fixed list of chunks, handed out in order.  An
/// empty chunk marks end-of-data, as does running out of chunks.  A read
/// never crosses a chunk boundary, so a caller asking for more bytes than
/// the current chunk still holds gets a short read.  Reads never fail.
pub struct ChunkSource {
    chunks: Vec<Vec<u8>>,
    chunk_idx: usize,
    offset: usize,
    finished: bool,
    delivered: Vec<u8>,
    pulls: u64,
}

impl ChunkSource {
    pub fn new(chunks: Vec<Vec<u8>>) -> (r: ChunkSource)
        ensures
            r.emitted() == Seq::<u8>::empty(),
            !r.done(),
            !r.fallible(),
            r.pending() == chunks_pending(chunk_views(chunks@), 0, 0),
            r.pull_count() == 0,
    {
        ChunkSource { chunks, chunk_idx: 0, offset: 0, finished: false, delivered: Vec::new(), pulls: 0 }
    }

    /// How many times the source has been asked for a chunk since it was
    /// created.  Asking a finished source again does not count: it answers
    /// end-of-data without doing any work.
    pub closed spec fn pull_count(&self) -> u64 {
        self.pulls
    }

    pub fn pulls(&self) -> (r: u64)
        ensures
            r == self.pull_count(),
    {
        self.pulls
    }
}

impl ByteSource for ChunkSource {
    closed spec fn emitted(&self) -> Seq<u8> {
        self.delivered@
    }

    closed spec fn done(&self) -> bool {
        self.finished
    }

    closed spec fn pending(&self) -> Seq<u8> {
        if self.finished {
            Seq::empty()
        } else {
            chunks_pending(chunk_views(self.chunks@), self.chunk_idx as int, self.offset as int)
        }
    }

    closed spec fn fallible(&self) -> bool {
        false
    }

    fn read(&mut self, buf: &mut Vec<u8>) -> (r: Result<usize, StreamError>) {
        if self.finished {
            proof {
                assert(self.delivered@ + buf@.subrange(0, 0) =~= self.delivered@);
                assert(self.pending() =~= self.pending().skip(0));
                assert(buf@.subrange(0, 0) =~= self.pending().take(0));
            }
            return Ok(0);
        }
        // Step past chunks that have been handed out completely.
        while self.chunk_idx < self.chunks.len() && self.chunks[self.chunk_idx].len() > 0
            && self.offset >= self.chunks[self.chunk_idx].len()
            invariant
                self.chunks == old(self).chunks,
                self.delivered == old(self).delivered,
                self.finished == old(self).finished,
                self.pulls == old(self).pulls,
                self.pending() == old(self).pending(),
            decreases self.chunks@.len() - self.chunk_idx,
        {
            let ghost before = self.pending();
            self.chunk_idx = self.chunk_idx + 1;
            self.offset = 0;
            proof {
                assert(self.pending() == before);
            }
        }
        if self.chunk_idx >= self.chunks.len() || self.chunks[self.chunk_idx].len() == 0 {
            // Out of chunks, or the terminal empty chunk: end-of-data.
            proof {
                assert(old(self).pending().len() == 0);
            }
            self.finished = true;
            proof {
                assert(self.delivered@ + buf@.subrange(0, 0) =~= self.delivered@);
                assert(self.pending() =~= old(self).pending().skip(0));
                assert(buf@.subrange(0, 0) =~= old(self).pending().take(0));
            }
            return Ok(0);
        }
        let chunk_len = self.chunks[self.chunk_idx].len();
        let avail = chunk_len - self.offset;
        let n = if buf.len() < avail {
            buf.len()
        } else {
            avail
        };
        let ghost pre = *self;
        proof {
            assert(pre.pending() == pre.chunks@[pre.chunk_idx as int]@.skip(pre.offset as int)
                + chunks_pending(chunk_views(pre.chunks@), pre.chunk_idx + 1, 0));
        }
        let mut i: usize = 0;
        while i < n
            invariant
                i <= n,
                n <= buf@.len(),
                buf@.len() == old(buf)@.len(),
                0 < n <= avail,
                avail == chunk_len - pre.offset,
                self.chunk_idx == pre.chunk_idx,
                self.offset == pre.offset,
                self.chunks == pre.chunks,
                self.finished == pre.finished,
                self.pulls == pre.pulls,
                pre.chunk_idx < pre.chunks@.len(),
                chunk_len == pre.chunks@[pre.chunk_idx as int]@.len(),
                pre.delivered@ == old(self).delivered@,
                self.delivered@ == pre.delivered@ + buf@.subrange(0, i as int),
                forall|k: int|
                    0 <= k < i ==> buf@[k] == pre.chunks@[pre.chunk_idx as int]@[pre.offset + k],
            decreases n - i,
        {
            let b = self.chunks[self.chunk_idx][self.offset + i];
            let ghost buf_before = buf@;
            buf.set(i, b);
            self.delivered.push(b);
            proof {
                assert(buf@.subrange(0, i as int) =~= buf_before.subrange(0, i as int));
                assert(self.delivered@ =~= pre.delivered@ + buf@.subrange(0, i + 1));
            }
            i = i + 1;
        }
        self.offset = self.offset + n;
        if self.pulls < u64::MAX {
            self.pulls = self.pulls + 1;
        }
        proof {
            assert(pre.pending() == old(self).pending());
            assert(buf@.subrange(0, n as int) =~= pre.pending().take(n as int));
            if pre.offset + n < chunk_len {
                assert(self.pending() == pre.chunks@[pre.chunk_idx as int]@.skip(
                    pre.offset + n,
                ) + chunks_pending(chunk_views(pre.chunks@), pre.chunk_idx + 1, 0));
            } else {
                assert(self.pending() == chunks_pending(
                    chunk_views(pre.chunks@),
                    pre.chunk_idx + 1,
                    0,
                ));
            }
            assert(self.pending() =~= pre.pending().skip(n as int));
        }
        Ok(n)
    }
}

/// The bytes a read returns: the slice of `data` that starts at `cursor`
/// and is at most `len` long, clipped to the end of `data`.  A cursor at or
/// past the end yields the empty sequence.
pub open spec fn read_window(data: Seq<u8>, cursor: int, len: int) -> Seq<u8> {
    data.subrange(min(cursor, data.len() as int), min(cursor + len, data.len() as int))
}

/// The absolute position a seek aims at, before range checking: `cursor` is
/// the position before the seek and `frontier` the number of bytes loaded so
/// far.
pub open spec fn seek_target(pos: SeekFrom, cursor: int, frontier: int) -> int {
    match pos {
        SeekFrom::Start(p) => p as int,
        SeekFrom::End(off) => frontier + off,
        SeekFrom::Current(off) => cursor + off,
    }
}

/// Seeking away and back restores everything.  `seek` leaves the buffer and
/// the source untouched and only moves the cursor to the computed target,
/// and a seek from the start lands exactly on its operand: so after any seek,
/// seeking back to the saved cursor restores the entire stream state, and a
/// read made then returns the same bytes as one made without the detour.
pub proof fn lemma_seek_round_trip(saved: usize, detour: SeekFrom, frontier: int)
    ensures
        seek_target(SeekFrom::Start(saved as u64), seek_target(detour, saved as int, frontier), frontier)
            == saved as int,
{
}

/// A lazily buffered, seekable view over a forward-only byte source.  All
/// bytes ever pulled from the source are kept, in order, in an append-only
/// buffer; the buffer grows only when a read demands bytes past its end, so
/// no byte is ever requested from the source twice, and backward seeks cost
/// nothing.
pub struct SongStream<R: ByteSource> {
    stream: R,
    loaded: Vec<u8>,
    index: usize,
}

impl<R: ByteSource> SongStream<R> {
    /// The bytes pulled from the source so far, starting at source offset
    /// zero.
    pub closed spec fn buffered(&self) -> Seq<u8> {
        self.loaded@
    }

    /// The current logical read/seek position.
    pub closed spec fn cursor(&self) -> int {
        self.index as int
    }

    /// The wrapped byte source.
    pub closed spec fn source(&self) -> R {
        self.stream
    }

    /// Well-formed: the buffer holds exactly the bytes the source has ever
    /// emitted — nothing dropped, duplicated or reordered.
    pub open spec fn wf(&self) -> bool {
        self.buffered() == self.source().emitted()
    }

    pub fn new(stream: R) -> (r: SongStream<R>)
        requires
            stream.emitted() == Seq::<u8>::empty(),
        ensures
            r.wf(),
            r.buffered() == Seq::<u8>::empty(),
            r.cursor() == 0,
            r.source() == stream,
    {
        SongStream { stream, loaded: Vec::new(), index: 0 }
    }

    /// Borrows the wrapped source, for inspection.
    pub fn source_ref(&self) -> (r: &R)
        ensures
            *r == self.source(),
    {
        &self.stream
    }

    /// The current logical read/seek position.
    pub fn position(&self) -> (r: usize)
        ensures
            r as int == self.cursor(),
    {
        self.index
    }

    /// Grows the buffer until it covers `[0, pos)`, pulling chunks from the
    /// source, or stops early when the source reports end-of-data or fails.
    /// A position already covered pulls nothing at all and cannot fail, and
    /// the buffer never grows past `pos`.
    pub fn ensure(&mut self, pos: usize) -> (r: Result<(), StreamError>)
        requires
            old(self).wf(),
        ensures
            final(self).wf(),
            final(self).cursor() == old(self).cursor(),
            old(self).buffered().is_prefix_of(final(self).buffered()),
            final(self).buffered().len() <= max(old(self).buffered().len() as int, pos as int),
            final(self).buffered() + final(self).source().pending() == old(self).buffered() + old(
                self,
            ).source().pending(),
            final(self).source().fallible() == old(self).source().fallible(),
            pos <= old(self).buffered().len() ==> *final(self) == *old(self) && r is Ok,
            old(self).source().done() ==> *final(self) == *old(self) && r is Ok,
            match r {
                Ok(_) => final(self).buffered().len() >= pos || (final(self).source().done()
                    && final(self).source().pending().len() == 0),
                Err(e) => e is Transport && old(self).source().fallible(),
            },
    {
        while self.loaded.len() < pos
            invariant
                self.wf(),
                self.index == old(self).index,
                old(self).loaded@.is_prefix_of(self.loaded@),
                self.loaded@.len() <= max(old(self).loaded@.len() as int, pos as int),
                self.loaded@ + self.stream.pending() == old(self).loaded@ + old(
                    self,
                ).stream.pending(),
                self.stream.fallible() == old(self).stream.fallible(),
                pos <= old(self).loaded@.len() ==> *self == *old(self),
                old(self).stream.done() ==> *self == *old(self),
            decreases pos - self.loaded@.len(),
        {
            let need = pos - self.loaded.len();
            let mut chunk: Vec<u8> = vec![0u8; need];
            let ghost pre = *self;
            match self.stream.read(&mut chunk) {
                Ok(n) => {
                    if n == 0 {
                        proof {
                            assert(pre.stream.emitted() + chunk@.subrange(0, 0) =~= pre.stream.emitted());
                            assert(self.stream.pending() =~= pre.stream.pending());
                        }
                        return Ok(());
                    }
                    let ghost mid = *self;
                    let mut i: usize = 0;
                    while i < n
                        invariant
                            i <= n,
                            n <= chunk@.len(),
                            self.stream == mid.stream,
                            self.index == mid.index,
                            self.loaded@ == pre.loaded@ + chunk@.subrange(0, i as int),
                        decreases n - i,
                    {
                        let b = chunk[i];
                        self.loaded.push(b);
                        proof {
                            assert(self.loaded@ =~= pre.loaded@ + chunk@.subrange(0, i + 1));
                        }
                        i = i + 1;
                    }
                    proof {
                        assert(old(self).loaded@.is_prefix_of(self.loaded@)) by {
                            assert(old(self).loaded@.is_prefix_of(pre.loaded@));
                            assert(self.loaded@.take(pre.loaded@.len() as int) =~= pre.loaded@);
                            assert(self.loaded@.take(old(self).loaded@.len() as int)
                                =~= old(self).loaded@);
                        }
                        assert(pre.stream.pending().take(n as int) + pre.stream.pending().skip(
                            n as int,
                        ) =~= pre.stream.pending());
                        assert(self.loaded@ + self.stream.pending() =~= pre.loaded@
                            + pre.stream.pending());
                    }
                }
                Err(e) => {
                    return Err(e);
                },
            }
        }
        Ok(())
    }

    /// Reads up to `buf.len()` bytes at the cursor into the front of `buf`,
    /// first growing the buffer so that it covers the requested range or the
    /// source is exhausted.  Returns how many bytes were written and moves
    /// the cursor past them.  A return of zero with a non-empty `buf` means
    /// end-of-stream, never an error; the byte at logical offset `k` is
    /// always the `k`-th byte the source emitted, no matter what seeks came
    /// before.
    pub fn read(&mut self, buf: &mut Vec<u8>) -> (r: Result<usize, StreamError>)
        requires
            old(self).wf(),
            old(self).cursor() + old(buf)@.len() <= usize::MAX,
        ensures
            final(self).wf(),
            final(buf)@.len() == old(buf)@.len(),
            old(self).buffered().is_prefix_of(final(self).buffered()),
            final(self).buffered().len() <= max(
                old(self).buffered().len() as int,
                old(self).cursor() + old(buf)@.len(),
            ),
            final(self).buffered() + final(self).source().pending() == old(self).buffered() + old(
                self,
            ).source().pending(),
            final(self).source().fallible() == old(self).source().fallible(),
            old(self).cursor() + old(buf)@.len() <= old(self).buffered().len()
                ==> r is Ok
                && final(self).buffered() == old(self).buffered()
                && final(self).source() == old(self).source(),
            old(self).source().done()
                ==> r is Ok
                && final(self).buffered() == old(self).buffered()
                && final(self).source() == old(self).source(),
            match r {
                Ok(n) => {
                    &&& final(self).buffered().len() >= old(self).cursor() + old(buf)@.len() || (
                    final(self).source().done() && final(self).source().pending().len() == 0)
                    &&& n == read_window(
                        final(self).buffered(),
                        old(self).cursor(),
                        old(buf)@.len() as int,
                    ).len()
                    &&& final(buf)@ == read_window(
                        final(self).buffered(),
                        old(self).cursor(),
                        old(buf)@.len() as int,
                    ) + old(buf)@.skip(n as int)
                    &&& final(self).cursor() == old(self).cursor() + n
                    &&& forall|k: int|
                        0 <= k < n
                            ==> final(buf)@[k]
                            == final(self).source().emitted()[old(self).cursor() + k]
                    &&& (old(self).source().done()
                        && old(self).cursor() >= old(self).buffered().len()
                        ==> n == 0 && *final(self) == *old(self))
                },
                Err(e) => {
                    &&& e is Transport
                    &&& old(self).source().fallible()
                    &&& final(buf)@ == old(buf)@
                    &&& final(self).cursor() == old(self).cursor()
                },
            },
    {
        let bytes_requested = buf.len();
        match self.ensure(self.index + bytes_requested) {
            Ok(_) => {},
            Err(e) => {
                return Err(e);
            },
        }
        let bytes_available = if self.loaded.len() > self.index {
            self.loaded.len() - self.index
        } else {
            0
        };
        let to_write = if bytes_requested < bytes_available {
            bytes_requested
        } else {
            bytes_available
        };
        let ghost mid = *self;
        let mut i: usize = 0;
        while i < to_write
            invariant
                i <= to_write,
                to_write <= buf@.len(),
                buf@.len() == old(buf)@.len(),
                *self == mid,
                to_write > 0 ==> mid.index + to_write <= mid.loaded@.len(),
                mid.index + to_write <= usize::MAX,
                forall|k: int| 0 <= k < i ==> buf@[k] == mid.loaded@[mid.index + k],
                forall|k: int| i <= k < buf@.len() ==> buf@[k] == old(buf)@[k],
            decreases to_write - i,
        {
            let b = self.loaded[self.index + i];
            buf.set(i, b);
            i = i + 1;
        }
        self.index = self.index + to_write;
        proof {
            assert(buf@ =~= read_window(self.loaded@, mid.index as int, old(buf)@.len() as int)
                + old(buf)@.skip(to_write as int));
        }
        Ok(to_write)
    }

    /// Moves the cursor to the given position and returns the new absolute
    /// position.  The buffer and the source are untouched: seeking past the
    /// loaded frontier is legal and pulls nothing; the pull happens lazily on
    /// the next read.  A target before position zero, or past the largest
    /// representable offset, is rejected and the cursor does not move.
    pub fn seek(&mut self, pos: SeekFrom) -> (r: Result<u64, StreamError>)
        ensures
            final(self).buffered() == old(self).buffered(),
            final(self).source() == old(self).source(),
            old(self).wf() ==> final(self).wf(),
            ({
                let t = seek_target(pos, old(self).cursor(), old(self).buffered().len() as int);
                match r {
                    Ok(p) => 0 <= t <= usize::MAX && final(self).cursor() == t && p == t,
                    Err(e) => {
                        &&& !(0 <= t <= usize::MAX)
                        &&& e == StreamError::OutOfRangeSeek
                        &&& *final(self) == *old(self)
                    },
                }
            }),
    {
        let target: i128 = match pos {
            SeekFrom::Start(p) => p as i128,
            SeekFrom::End(off) => self.loaded.len() as i128 + off as i128,
            SeekFrom::Current(off) => self.index as i128 + off as i128,
        };
        if target < 0 || target > usize::MAX as i128 {
            return Err(StreamError::OutOfRangeSeek);
        }
        self.index = target as usize;
        Ok(target as u64)
    }
}

} // verus!
