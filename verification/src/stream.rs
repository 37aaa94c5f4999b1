use vstd::prelude::*;

verus! {

/// Where to seek to: from the start, from the end, or from the current
/// position of a stream.
#[derive(Debug, Clone, Copy, PartialEq, Eq, Structural)]
pub enum SeekFrom {
    Start(u64),
    End(i64),
    Current(i64),
}

/// Why a download cannot be read as a finite stream.
#[derive(Debug, Clone, Copy, PartialEq, Eq, Structural)]
pub enum StreamError {
    /// The response announced no length.
    MissingContentLength,
    /// The announced length does not fit in memory addresses.
    LengthTooLarge,
}

/// A seekable, readable view of a download of known length that arrives in
/// chunks.  The chunks are fetched by the owner of the download and handed
/// in with [`FiniteStream::append_chunk`].
#[derive(Debug)]
pub struct FiniteStream {
    length: usize,
    bytes: Vec<u8>,
    pos: usize,
    finished: bool,
}

/// Whether seeking to `pos` from `cur` in a stream of `length` bytes stays
/// within the range of positions.
pub open spec fn seek_in_range(length: usize, cur: usize, pos: SeekFrom) -> bool {
    match pos {
        SeekFrom::Start(_) => true,
        SeekFrom::End(n) => n >= 0 || (n > i64::MIN && -n <= length),
        SeekFrom::Current(n) => if n < 0 {
            n > i64::MIN && -n <= cur
        } else {
            cur + n <= u64::MAX
        },
    }
}

/// The position that seeking to `pos` from `cur` in a stream of `length`
/// bytes aims at; a position past the end counts as the end.
pub open spec fn spec_seek_target(length: usize, cur: usize, pos: SeekFrom) -> int {
    match pos {
        SeekFrom::Start(n) => n as int,
        SeekFrom::End(n) => if n < 0 {
            length + n
        } else {
            length as int
        },
        SeekFrom::Current(n) => cur + n,
    }
}

impl FiniteStream {
    /// The read position lies within the data that arrived.
    #[verifier::type_invariant]
    spec fn inv(&self) -> bool {
        self.pos <= self.bytes@.len()
    }

    /// The length the download announced.
    pub closed spec fn length(&self) -> usize {
        self.length
    }

    /// The bytes received so far.
    pub closed spec fn buffered(&self) -> Seq<u8> {
        self.bytes@
    }

    /// The read position.
    pub closed spec fn pos(&self) -> usize {
        self.pos
    }

    /// Whether the stream is finished.
    pub closed spec fn finished(&self) -> bool {
        self.finished
    }

    /// A stream of `length` bytes of which none have arrived yet.
    pub fn new(length: usize) -> (s: Self)
        ensures
            s.length() == length,
            s.buffered() == Seq::<u8>::empty(),
            s.pos() == 0,
            !s.finished(),
    {
        FiniteStream { bytes: Vec::new(), pos: 0, finished: false, length }
    }

    /// A stream for a download that announced `content_length` bytes.
    pub fn from_content_length(content_length: Option<u64>) -> (r: Result<Self, StreamError>)
        ensures
            match content_length {
                None => r == Err::<Self, StreamError>(StreamError::MissingContentLength),
                Some(l) => if l <= usize::MAX {
                    r matches Ok(s) && s.length() == l && s.buffered().len() == 0
                        && s.pos() == 0 && !s.finished()
                } else {
                    r == Err::<Self, StreamError>(StreamError::LengthTooLarge)
                },
            },
    {
        match content_length {
            None => Err(StreamError::MissingContentLength),
            Some(l) => {
                if l <= usize::MAX as u64 {
                    Ok(FiniteStream::new(l as usize))
                } else {
                    Err(StreamError::LengthTooLarge)
                }
            },
        }
    }

    /// The read position.
    pub fn position(&self) -> (r: usize)
        ensures
            r == self.pos(),
    {
        self.pos
    }

    /// How many bytes have arrived.
    pub fn buffered_len(&self) -> (r: usize)
        ensures
            r == self.buffered().len(),
    {
        self.bytes.len()
    }

    /// Adds a chunk that arrived.
    pub fn append_chunk(&mut self, chunk: &[u8])
        ensures
            final(self).buffered() == old(self).buffered() + chunk@,
            final(self).pos() == old(self).pos(),
            final(self).length() == old(self).length(),
            final(self).finished() == old(self).finished(),
    {
        proof {
            use_type_invariant(&*self);
        }
        let mut taken = FiniteStream::new(0);
        std::mem::swap(&mut taken, self);
        let FiniteStream { length, mut bytes, pos, finished } = taken;
        let ghost old_bytes = bytes@;
        let mut i: usize = 0;
        while i < chunk.len()
            invariant
                i <= chunk@.len(),
                bytes@ == old_bytes + chunk@.subrange(0, i as int),
            decreases chunk@.len() - i,
        {
            bytes.push(chunk[i]);
            proof {
                assert(chunk@.subrange(0, i + 1) == chunk@.subrange(0, i as int).push(chunk@[i as int]));
            }
            i = i + 1;
        }
        proof {
            assert(chunk@.subrange(0, chunk@.len() as int) == chunk@);
        }
        *self = FiniteStream { length, bytes, pos, finished };
    }

    /// Whether a seek to `pos` stays within the range of positions.
    pub fn seek_allowed(&self, pos: SeekFrom) -> (r: bool)
        ensures
            r == seek_in_range(self.length(), self.pos(), pos),
    {
        match pos {
            SeekFrom::Start(_) => true,
            SeekFrom::End(n) => n >= 0 || (n > i64::MIN && (-n) as u64 <= self.length as u64),
            SeekFrom::Current(n) => {
                if n < 0 {
                    n > i64::MIN && (-n) as u64 <= self.pos as u64
                } else {
                    self.pos as u64 <= u64::MAX - (n as u64)
                }
            },
        }
    }

    /// The position that a seek aims at.
    pub fn seek_target(&self, pos: SeekFrom) -> (r: u64)
        requires
            seek_in_range(self.length(), self.pos(), pos),
        ensures
            r == spec_seek_target(self.length(), self.pos(), pos),
    {
        match pos {
            SeekFrom::Start(n) => n,
            SeekFrom::End(n) => {
                if n < 0 {
                    self.length as u64 - ((-n) as u64)
                } else {
                    self.length as u64
                }
            },
            SeekFrom::Current(n) => {
                if n < 0 {
                    self.pos as u64 - ((-n) as u64)
                } else {
                    self.pos as u64 + (n as u64)
                }
            },
        }
    }

    /// Whether more data must arrive before the stream can be positioned at
    /// `target`.
    pub fn needs_data(&self, target: u64) -> (r: bool)
        ensures
            r == (target >= self.buffered().len()),
    {
        target >= self.bytes.len() as u64
    }

    /// Completes a seek to `target`: the position becomes `target` where its
    /// data has arrived, and the end of the data otherwise, which the owner
    /// asks for only once the download has ended.
    pub fn settle_seek(&mut self, target: u64) -> (r: u64)
        ensures
            r == final(self).pos(),
            final(self).pos() == if target < old(self).buffered().len() {
                target as int
            } else {
                old(self).buffered().len() as int
            },
            final(self).buffered() == old(self).buffered(),
            final(self).length() == old(self).length(),
            final(self).finished() == old(self).finished(),
    {
        if target < self.bytes.len() as u64 {
            self.pos = target as usize;
        } else {
            self.pos = self.bytes.len();
        }
        self.pos as u64
    }

    /// Whether a read must first wait for another chunk: all data that
    /// arrived has been read.
    pub fn wants_chunk(&self) -> (r: bool)
        ensures
            r == (!self.finished() && self.pos() == self.buffered().len()),
    {
        !self.finished && self.pos == self.bytes.len()
    }

    /// Reads from the data that arrived into `buf`, as far as both reach.
    pub fn read(&mut self, buf: &mut [u8]) -> (n: usize)
        ensures
            final(self).buffered() == old(self).buffered(),
            final(self).length() == old(self).length(),
            final(self).finished() == old(self).finished(),
            old(self).finished() ==> n == 0 && final(self).pos() == old(self).pos() && final(buf)@
                == old(buf)@,
            !old(self).finished() ==> {
                &&& n == if old(buf)@.len() <= old(self).buffered().len() - old(self).pos() {
                    old(buf)@.len() as int
                } else {
                    old(self).buffered().len() - old(self).pos()
                }
                &&& final(self).pos() == old(self).pos() + n
                &&& final(buf)@ == old(self).buffered().subrange(
                    old(self).pos() as int,
                    old(self).pos() + n,
                ) + old(buf)@.subrange(n as int, old(buf)@.len() as int)
            },
    {
        proof {
            use_type_invariant(&*self);
        }
        if self.finished {
            return 0;
        }
        let n_buf = buf.len();
        let n_bytes = self.bytes.len();
        let n_remaining_available = n_bytes - self.pos;
        let n_to_read = if n_buf <= n_remaining_available {
            n_buf
        } else {
            n_remaining_available
        };
        let ghost old_buf = buf@;
        let mut i: usize = 0;
        while i < n_to_read
            invariant
                n_to_read <= buf@.len(),
                buf@.len() == old_buf.len(),
                self.pos + n_to_read <= self.bytes@.len(),
                self.bytes@.len() == n_bytes,
                i <= n_to_read,
                forall|j: int| 0 <= j < i ==> buf@[j] == self.bytes@[self.pos + j],
                forall|j: int| i <= j < buf@.len() ==> buf@[j] == old_buf[j],
            decreases n_to_read - i,
        {
            buf[i] = self.bytes[self.pos + i];
            i = i + 1;
        }
        proof {
            assert(buf@ =~= self.bytes@.subrange(self.pos as int, self.pos + n_to_read)
                + old_buf.subrange(n_to_read as int, old_buf.len() as int));
        }
        self.pos = self.pos + n_to_read;
        n_to_read
    }
}

/// A seek from the current position moves by the offset: a forward seek
/// never overflows below `u64::MAX`, and it aims at the current position
/// plus the offset; a backward seek is allowed exactly as far back as the
/// start of the stream.
pub proof fn seek_from_current_moves_by_offset(length: usize, cur: usize, n: i64)
    ensures
        n >= 0 && cur + n <= u64::MAX ==> seek_in_range(length, cur, SeekFrom::Current(n))
            && spec_seek_target(length, cur, SeekFrom::Current(n)) == cur + n,
        n < 0 && n > i64::MIN ==> (seek_in_range(length, cur, SeekFrom::Current(n)) <==> -n <= cur),
        n < 0 && -n <= cur && n > i64::MIN ==> spec_seek_target(length, cur, SeekFrom::Current(n))
            == cur - (-n),
{
}

/// A seek from the end by a negative offset is allowed whenever the offset
/// reaches no further back than the announced length, and aims that far
/// before the end; a seek from the end by a positive offset stops at the
/// end.
pub proof fn seek_from_end_stays_within_length(length: usize, cur: usize, k: i64)
    ensures
        0 < k && k <= length ==> seek_in_range(length, cur, SeekFrom::End((-k) as i64))
            && spec_seek_target(length, cur, SeekFrom::End((-k) as i64)) == length - k,
        k > length && k < i64::MAX ==> !seek_in_range(length, cur, SeekFrom::End((-k) as i64)),
        k >= 0 ==> seek_in_range(length, cur, SeekFrom::End(k))
            && spec_seek_target(length, cur, SeekFrom::End(k)) == length,
{
}

/// A seek from the start is always allowed and aims at the given position.
pub proof fn seek_from_start_aims_at_position(length: usize, cur: usize, n: u64)
    ensures
        seek_in_range(length, cur, SeekFrom::Start(n)),
        spec_seek_target(length, cur, SeekFrom::Start(n)) == n,
{
}

} // verus!
