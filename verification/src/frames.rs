//! Frames read and written over a byte stream: the buffer that collects a
//! frame as its bytes arrive, and the one that holds a frame being sent.

use vstd::prelude::*;

verus! {

/// Errors of the frame layer.
#[derive(Debug)]
pub enum Error {
    Other(String),
    /// An error of the serial port, with its text.
    SerialPort(String),
    WouldBlock,
    BufferNotEmpty,
    UnexpectedEof,
}

impl Error {
    /// Whether the device has to be reset after this error: errors of the
    /// serial port.
    pub fn need_reset(&self) -> (r: bool)
        ensures
            r == (*self is SerialPort),
    {
        match self {
            Error::SerialPort(_) => true,
            _ => false,
        }
    }
}

/// A frame type: how many more bytes a partial frame needs, how a whole
/// one is read, and how one is written.
pub trait Frame: Sized {
    type Params;

    /// What `get_buffer_len` may do: the buffer it leaves from the one it
    /// was given, and its result.
    open spec fn spec_buffer_len(buf: Seq<u8>, params: Self::Params, after: Seq<u8>, r: Result<usize, Error>) -> bool {
        true
    }

    /// What `from_buf` may give for some bytes.
    open spec fn spec_read(buf: Seq<u8>, params: Self::Params, r: Result<Self, Error>) -> bool {
        true
    }

    /// What `as_bytes` may do: the buffer it leaves from the one it was
    /// given, and its result.
    open spec fn spec_write(f: Self, params: Self::Params, before: Seq<u8>, after: Seq<u8>, r: Result<(), Error>) -> bool {
        true
    }

    /// How many more bytes `buf` needs to hold a whole frame (0 once it
    /// does); it may drop bytes that are not part of a frame.
    fn get_buffer_len(buf: &mut Vec<u8>, params: &Self::Params) -> (r: Result<usize, Error>)
        ensures
            Self::spec_buffer_len(old(buf)@, *params, final(buf)@, r),
    ;

    /// Reads a whole frame.
    fn from_buf(buf: &[u8], params: &Self::Params) -> (r: Result<Self, Error>)
        ensures
            Self::spec_read(buf@, *params, r),
    ;

    /// Appends the frame to `buf`.
    fn as_bytes(&self, params: &Self::Params, buf: &mut Vec<u8>) -> (r: Result<(), Error>)
        ensures
            Self::spec_write(*self, *params, old(buf)@, final(buf)@, r),
    ;
}

/// A buffer for one frame: the bytes of the frame, of which the last
/// `bytes_to_go` are still to be read (when reading) or written (when
/// writing).
pub struct FrameBuffer {
    pub buf: Vec<u8>,
    pub bytes_to_go: usize,
}

impl FrameBuffer {
    /// The number of bytes still to be read or written.
    pub open spec fn to_go(&self) -> usize {
        self.bytes_to_go
    }

    /// Whether the bytes still to go lie within the buffer.
    pub open spec fn wf(&self) -> bool {
        self.to_go() <= self.buf@.len()
    }

    pub fn new() -> (r: Self)
        ensures
            r.buf@ == Seq::<u8>::empty(),
            r.to_go() == 0,
    {
        FrameBuffer { buf: Vec::new(), bytes_to_go: 0 }
    }

    /// The number of bytes still to be read or written.
    pub fn bytes_to_go(&self) -> (r: usize)
        ensures
            r == self.to_go(),
    {
        self.bytes_to_go
    }

    /// Whether nothing is left to go.
    pub fn is_empty(&self) -> (r: bool)
        ensures
            r == (self.to_go() == 0),
    {
        self.bytes_to_go == 0
    }

    /// Puts a frame to be written into the buffer, which must be empty: the
    /// frame writes itself into the empty buffer; once it did, all of its
    /// bytes are to go, and where it failed, the count to go is left as it
    /// was.
    pub fn push_frame<F: Frame>(&mut self, frame: &F, params: &F::Params) -> (r: Result<(), Error>)
        ensures
            old(self).buf@.len() != 0 ==> (r matches Err(Error::BufferNotEmpty) && *final(self)
                == *old(self)),
            old(self).buf@.len() == 0 ==> F::spec_write(
                *frame,
                *params,
                Seq::empty(),
                final(self).buf@,
                r,
            ),
            old(self).buf@.len() == 0 ==> r is Ok ==> final(self).to_go() == final(self).buf@.len(),
            old(self).buf@.len() == 0 ==> r is Err ==> final(self).to_go() == old(self).to_go(),
    {
        if self.buf.len() == 0 {
            proof {
                assert(self.buf@ =~= Seq::<u8>::empty());
            }
            let r = frame.as_bytes(params, &mut self.buf);
            if r.is_ok() {
                self.bytes_to_go = self.buf.len();
            }
            r
        } else {
            Err(Error::BufferNotEmpty)
        }
    }

    /// Puts the bytes just read where they belong: right after the bytes
    /// received before; they are no longer to go.
    pub fn put_read(&mut self, data: &[u8])
        requires
            old(self).wf(),
            data@.len() <= old(self).to_go(),
        ensures
            final(self).wf(),
            final(self).to_go() == old(self).to_go() - data@.len(),
            final(self).buf@ == old(self).buf@.take(old(self).buf@.len() - old(self).to_go())
                + data@ + old(self).buf@.skip(
                old(self).buf@.len() - old(self).to_go() + data@.len(),
            ),
    {
        let start = self.buf.len() - self.bytes_to_go;
        let ghost b0 = self.buf@;
        let mut i: usize = 0;
        while i < data.len()
            invariant
                i <= data@.len(),
                start + data@.len() <= b0.len(),
                b0.len() <= usize::MAX,
                self.buf@.len() == b0.len(),
                self.bytes_to_go == old(self).bytes_to_go,
                forall|k: int|
                    0 <= k < b0.len() ==> #[trigger] self.buf@[k] == if start <= k < start + i {
                        data@[k - start]
                    } else {
                        b0[k]
                    },
            decreases data@.len() - i,
        {
            self.buf.set(start + i, data[i]);
            i += 1;
        }
        self.bytes_to_go = self.bytes_to_go - data.len();
        proof {
            assert(self.buf@ =~= b0.take(start as int) + data@ + b0.skip(start + data@.len()));
        }
    }

    /// The bytes still to be written.
    pub fn to_write(&self) -> (r: &[u8])
        requires
            self.wf(),
        ensures
            r@ == self.buf@.skip(self.buf@.len() - self.to_go()),
    {
        let start = self.buf.len() - self.bytes_to_go;
        let r = &self.buf.as_slice()[start..self.buf.len()];
        proof {
            assert(r@ =~= self.buf@.skip(self.buf@.len() - self.to_go()));
        }
        r
    }
}

/// The bytes that a buffer holds once `read` is put where it belongs.
pub open spec fn collected(b: FrameBuffer, read: Option<Result<Vec<u8>, Error>>) -> Seq<u8> {
    match read {
        Some(Ok(d)) => b.buf@.take(b.buf@.len() - b.to_go()) + d@ + b.buf@.skip(
            b.buf@.len() - b.to_go() + d@.len(),
        ),
        _ => b.buf@,
    }
}

/// Whether `read` leaves nothing to go in the buffer: nothing was to go,
/// or the read gave all that was.
pub open spec fn read_completes(b: FrameBuffer, read: Option<Result<Vec<u8>, Error>>) -> bool {
    match read {
        None => true,
        Some(Ok(d)) => d@.len() == b.to_go(),
        Some(Err(_)) => false,
    }
}

/// One step of reading a frame without blocking. `read` is what reading
/// into the bytes still to go gave (`None` where nothing was to go, so no
/// read was made); a read that would block changes nothing. Once nothing
/// is left to go, the frame type tells how many more bytes it needs; where
/// it needs none, the frame is read from the buffer, which is emptied, and
/// handed out; else the buffer grows by that many bytes to go.
pub fn nonblocking_read_frame<F: Frame>(
    read: Option<Result<Vec<u8>, Error>>,
    buf: &mut FrameBuffer,
    params: &F::Params,
) -> (r: Result<Option<F>, Error>)
    requires
        old(buf).wf(),
        read is None <==> old(buf).to_go() == 0,
        read matches Some(Ok(d)) ==> d@.len() <= old(buf).to_go(),
    ensures
        final(buf).wf(),
        (read matches Some(Err(e)) && !(e is WouldBlock)) ==> (r matches Err(_) && *final(buf)
            == *old(buf)),
        (r matches Ok(Some(_))) ==> final(buf).buf@.len() == 0 && final(buf).to_go() == 0,
        (r matches Ok(None)) ==> final(buf).to_go() > 0 || (read matches Some(
            Err(Error::WouldBlock),
        ) && *final(buf) == *old(buf)),
        (read matches Some(Err(Error::WouldBlock))) ==> (r matches Ok(None) && *final(buf) == *old(buf)),
        read_completes(*old(buf), read) ==> (r matches Ok(Some(f)) ==> exists|after: Seq<u8>|
            F::spec_buffer_len(collected(*old(buf), read), *params, after, Ok(0))
                && #[trigger] F::spec_read(after, *params, Ok(f))),
        (read_completes(*old(buf), read) && r matches Ok(None)) ==> {
            &&& final(buf).to_go() > 0
            &&& exists|after: Seq<u8>|
                #[trigger] F::spec_buffer_len(
                    collected(*old(buf), read),
                    *params,
                    after,
                    Ok(final(buf).to_go()),
                ) && final(buf).buf@ == after + Seq::new(final(buf).to_go() as nat, |k: int| 0u8)
        },
        read matches Some(Ok(d)) ==> d@.len() < old(buf).to_go() ==> {
            &&& r matches Ok(None)
            &&& final(buf).to_go() == old(buf).to_go() - d@.len()
            &&& final(buf).buf@ == old(buf).buf@.take(old(buf).buf@.len() - old(buf).to_go()) + d@
                + old(buf).buf@.skip(old(buf).buf@.len() - old(buf).to_go() + d@.len())
        },
{
    let ghost col = collected(*old(buf), read);
    let ghost done = read_completes(*old(buf), read);
    match read {
        Some(Ok(data)) => {
            buf.put_read(data.as_slice());
        },
        Some(Err(Error::WouldBlock)) => {
            return Ok(None);
        },
        Some(Err(e)) => {
            return Err(e);
        },
        None => {},
    }
    assert(buf.buf@ == col);
    assert(done ==> buf.bytes_to_go == 0);
    if buf.bytes_to_go == 0 {
        let ghost c = buf.buf@;
        let n = F::get_buffer_len(&mut buf.buf, params);
        let ghost after = buf.buf@;
        match n {
            Ok(0) => {
                let fr = F::from_buf(buf.buf.as_slice(), params);
                buf.buf.clear();
                let res: Result<Option<F>, Error> = match fr {
                    Ok(f) => Ok(Some(f)),
                    Err(e) => Err(e),
                };
                proof {
                    assert(F::spec_buffer_len(col, *params, after, Ok(0)));
                    assert(res matches Ok(Some(f)) ==> fr == Ok::<F, Error>(f) && F::spec_read(
                        after,
                        *params,
                        Ok(f),
                    ));
                }
                return res;
            },
            Ok(n) => {
                let mut i: usize = 0;
                let ghost b0 = buf.buf@;
                if n > usize::MAX - buf.buf.len() {
                    // the buffer cannot grow that far
                    return Err(Error::UnexpectedEof);
                }
                while i < n
                    invariant
                        i <= n,
                        b0.len() + n <= usize::MAX,
                        buf.buf@ == b0 + Seq::new(i as nat, |k: int| 0u8),
                        buf.bytes_to_go == 0,
                    decreases n - i,
                {
                    buf.buf.push(0);
                    i += 1;
                    proof {
                        assert(buf.buf@ =~= b0 + Seq::new(i as nat, |k: int| 0u8));
                    }
                }
                buf.bytes_to_go = n;
                proof {
                    assert(buf.buf@ =~= after + Seq::new(n as nat, |k: int| 0u8));
                    assert(F::spec_buffer_len(c, *params, after, Ok(n)));
                }
            },
            Err(e) => {
                return Err(e);
            },
        }
    }
    Ok(None)
}

/// What one step of writing does: all that was to go written empties the
/// buffer and gives `true`; fewer bytes written leave the rest to go and
/// give `false`; a write that would block changes nothing and gives
/// `false`; another error is handed on and changes nothing.
pub open spec fn write_step(
    before: FrameBuffer,
    written: Result<usize, Error>,
    r: Result<bool, Error>,
    after: FrameBuffer,
) -> bool {
    match written {
        Ok(n) => if n == before.to_go() {
            r == Ok::<bool, Error>(true) && after.buf@.len() == 0 && after.to_go() == 0
        } else {
            r == Ok::<bool, Error>(false) && after.buf@ == before.buf@ && after.to_go()
                == before.to_go() - n
        },
        Err(Error::WouldBlock) => r == Ok::<bool, Error>(false) && after == before,
        Err(_) => r is Err && after == before,
    }
}

/// A buffer with bytes to go stays so, write after write, until a write
/// reports that all is written (`Ok(true)`); then nothing is left to go
/// and the buffer is empty.
pub proof fn lemma_nonempty_until_written(
    before: FrameBuffer,
    written: Result<usize, Error>,
    r: Result<bool, Error>,
    after: FrameBuffer,
)
    requires
        before.wf(),
        before.to_go() > 0,
        written matches Ok(n) ==> n <= before.to_go(),
        write_step(before, written, r, after),
    ensures
        (after.to_go() == 0) <==> (r == Ok::<bool, Error>(true)),
        r == Ok::<bool, Error>(true) ==> after.buf@.len() == 0,
{
}

/// A run of writes: each state of the buffer is what the write before it
/// left, with no write reporting more bytes than were to go.
pub open spec fn write_run(
    bufs: Seq<FrameBuffer>,
    writes: Seq<Result<usize, Error>>,
    rs: Seq<Result<bool, Error>>,
) -> bool {
    &&& bufs.len() == writes.len() + 1
    &&& rs.len() == writes.len()
    &&& forall|i: int|
        0 <= i < writes.len() ==> (#[trigger] writes[i] matches Ok(n) ==> n <= bufs[i].to_go())
            && write_step(bufs[i], writes[i], rs[i], bufs[i + 1])
}

/// Over a run of writes of a buffer with bytes to go, bytes stay to go
/// until a write reports that all is written (`Ok(true)`); after that
/// write nothing is left to go and the buffer is empty.
pub proof fn lemma_nonempty_over_writes(
    bufs: Seq<FrameBuffer>,
    writes: Seq<Result<usize, Error>>,
    rs: Seq<Result<bool, Error>>,
)
    requires
        write_run(bufs, writes, rs),
        bufs[0].to_go() > 0,
    ensures
        forall|i: int|
            0 <= i < rs.len() ==> ((forall|j: int| 0 <= j <= i ==> rs[j] != Ok::<bool, Error>(true))
                ==> #[trigger] bufs[i + 1].to_go() > 0),
        forall|i: int|
            0 <= i < rs.len() && #[trigger] rs[i] == Ok::<bool, Error>(true) && (forall|j: int|
                0 <= j < i ==> rs[j] != Ok::<bool, Error>(true)) ==> bufs[i + 1].to_go() == 0
                && bufs[i + 1].buf@.len() == 0,
    decreases writes.len(),
{
    if writes.len() > 0 {
        let k = writes.len() - 1;
        let b2 = bufs.drop_last();
        let w2 = writes.drop_last();
        let r2 = rs.drop_last();
        assert forall|i: int| 0 <= i < w2.len() implies (#[trigger] w2[i] matches Ok(n) ==> n
            <= b2[i].to_go()) && write_step(b2[i], w2[i], r2[i], b2[i + 1]) by {
            assert(writes[i] == w2[i]);
        }
        lemma_nonempty_over_writes(b2, w2, r2);
        assert(writes[k] matches Ok(n) ==> n <= bufs[k].to_go());
        assert(write_step(bufs[k], writes[k], rs[k], bufs[k + 1]));
        assert forall|i: int|
            0 <= i < rs.len() implies ((forall|j: int| 0 <= j <= i ==> rs[j] != Ok::<bool, Error>(true))
            ==> #[trigger] bufs[i + 1].to_go() > 0) by {
            if i < k {
                assert(b2[i + 1] == bufs[i + 1]);
                if forall|j: int| 0 <= j <= i ==> rs[j] != Ok::<bool, Error>(true) {
                    assert forall|j: int| 0 <= j <= i implies r2[j] != Ok::<bool, Error>(true) by {
                        assert(r2[j] == rs[j]);
                    }
                    assert(b2[i + 1].to_go() > 0);
                }
            } else if forall|j: int| 0 <= j <= i ==> rs[j] != Ok::<bool, Error>(true) {
                if k > 0 {
                    assert(b2[k] == bufs[k]);
                    assert forall|j: int| 0 <= j <= k - 1 implies r2[j] != Ok::<bool, Error>(true) by {
                        assert(r2[j] == rs[j]);
                    }
                    let m = k - 1;
                    assert(b2[m + 1].to_go() > 0);
                    assert(bufs[k].to_go() > 0);
                }
                assert(rs[k] != Ok::<bool, Error>(true));
                assert(bufs[k].to_go() > 0);
            }
        }
        assert forall|i: int|
            0 <= i < rs.len() && #[trigger] rs[i] == Ok::<bool, Error>(true) && (forall|j: int|
                0 <= j < i ==> rs[j] != Ok::<bool, Error>(true)) implies bufs[i + 1].to_go() == 0
            && bufs[i + 1].buf@.len() == 0 by {
            assert(writes[i] matches Ok(n) ==> n <= bufs[i].to_go());
            assert(write_step(bufs[i], writes[i], rs[i], bufs[i + 1]));
        }
    }
}

/// One step of writing a frame without blocking. `written` is what writing
/// the bytes still to go gave: the number written, after which the buffer
/// is emptied once nothing is left to go (`true`); a write that would block
/// changes nothing; another error is handed on.
pub fn nonblocking_write_frame(written: Result<usize, Error>, buf: &mut FrameBuffer) -> (r: Result<
    bool,
    Error,
>)
    requires
        old(buf).wf(),
        written matches Ok(n) ==> n <= old(buf).to_go(),
    ensures
        final(buf).wf(),
        write_step(*old(buf), written, r, *final(buf)),
{
    match written {
        Ok(n) => {
            buf.bytes_to_go = buf.bytes_to_go - n;
            if buf.bytes_to_go == 0 {
                buf.buf.clear();
                return Ok(true);
            }
        },
        Err(Error::WouldBlock) => {},
        Err(e) => {
            return Err(e);
        },
    }
    Ok(false)
}

} // verus!
