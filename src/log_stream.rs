//! Reading a task's captured output: the follow cursor that delivers each
//! newly appended byte once, and the chunking of deliveries into bounded
//! transfer units.
use vstd::prelude::*;

verus! {

/// The largest number of bytes that one delivery carries.
pub const BUFFER_SIZE: usize = 64;

/// The bytes of `chunks`, one chunk after the other.
pub open spec fn concat_chunks(chunks: Seq<Seq<u8>>) -> Seq<u8>
    decreases chunks.len(),
{
    if chunks.len() == 0 {
        Seq::empty()
    } else {
        concat_chunks(chunks.drop_last()) + chunks.last()
    }
}

/// Whether `chunks` cuts a byte sequence into transfer units: none empty,
/// none longer than a unit, and all but the last exactly one unit.
pub open spec fn is_chunking(chunks: Seq<Seq<u8>>) -> bool {
    &&& forall|i: int| 0 <= i < chunks.len() ==> 0 < #[trigger] chunks[i].len() <= BUFFER_SIZE
    &&& forall|i: int| 0 <= i < chunks.len() - 1 ==> #[trigger] chunks[i].len() == BUFFER_SIZE
}

/// The views of a list of byte vectors.
pub open spec fn chunk_views(chunks: Seq<Vec<u8>>) -> Seq<Seq<u8>> {
    chunks.map_values(|c: Vec<u8>| c@)
}

/// A transfer unit as a mathematical value: its bytes, and how many of them
/// have been filled since the unit was last started.
pub struct MsgBufView {
    pub buffer: Seq<u8>,
    pub count: nat,
}

impl MsgBufView {
    /// The unit has room for exactly one transfer unit, and holds no more
    /// filled bytes than that.
    pub open spec fn wf(self) -> bool {
        self.buffer.len() == BUFFER_SIZE && self.count <= BUFFER_SIZE
    }
}

/// A transfer unit being filled, byte by byte. Starting a new unit keeps the
/// bytes of the full one readable until they are overwritten.
pub struct MsgBuf {
    buffer: Vec<u8>,
    count: usize,
}

impl View for MsgBuf {
    type V = MsgBufView;

    closed spec fn view(&self) -> MsgBufView {
        MsgBufView { buffer: self.buffer@, count: self.count as nat }
    }
}

impl MsgBuf {
    /// An empty unit.
    pub fn new() -> (r: Self)
        ensures
            r@.count == 0,
            r@.buffer == Seq::new(BUFFER_SIZE as nat, |i: int| 0u8),
            r@.wf(),
    {
        let mut buffer: Vec<u8> = Vec::new();
        let mut i: usize = 0;
        while i < BUFFER_SIZE
            invariant
                i <= BUFFER_SIZE,
                buffer@ == Seq::new(i as nat, |k: int| 0u8),
            decreases BUFFER_SIZE - i,
        {
            buffer.push(0u8);
            i += 1;
            assert(buffer@ =~= Seq::new(i as nat, |k: int| 0u8));
        }
        MsgBuf { buffer, count: 0 }
    }

    /// The number of bytes filled.
    pub fn count(&self) -> (r: usize)
        ensures
            r == self@.count,
    {
        self.count
    }

    /// Offers a byte. A unit with room stores it and answers false. A full
    /// unit answers true and stores nothing: a new unit starts, the full
    /// unit's bytes stay readable, and the byte is to be offered again.
    pub fn msg_filled(&mut self, message: &u8) -> (r: bool)
        requires
            old(self)@.wf(),
        ensures
            final(self)@.wf(),
            old(self)@.count < BUFFER_SIZE ==> !r && final(self)@.count == old(self)@.count + 1
                && final(self)@.buffer == old(self)@.buffer.update(
                old(self)@.count as int,
                *message,
            ),
            old(self)@.count == BUFFER_SIZE ==> r && final(self)@.count == 0 && final(self)@.buffer
                == old(self)@.buffer,
    {
        if self.count == BUFFER_SIZE {
            self.count = 0;
            return true;
        }
        let at = self.count;
        self.buffer.set(at, *message);
        self.count = at + 1;
        false
    }

    /// The first `n` bytes of the unit.
    fn prefix(&self, n: usize) -> (r: Vec<u8>)
        requires
            n <= self@.buffer.len(),
        ensures
            r@ == self@.buffer.subrange(0, n as int),
    {
        let mut out: Vec<u8> = Vec::new();
        let mut i: usize = 0;
        while i < n
            invariant
                i <= n,
                n <= self.buffer@.len(),
                out@ == self.buffer@.subrange(0, i as int),
            decreases n - i,
        {
            out.push(self.buffer[i]);
            i += 1;
            assert(out@ =~= self.buffer@.subrange(0, i as int));
        }
        out
    }

    /// All the bytes of the unit, as a full unit is read.
    pub fn unit(&self) -> (r: Vec<u8>)
        requires
            self@.wf(),
        ensures
            r@ == self@.buffer,
    {
        let r = self.prefix(BUFFER_SIZE);
        assert(r@ =~= self@.buffer);
        r
    }

    /// The bytes filled since the unit was last started, as a partial unit
    /// is flushed at the end of a stream.
    pub fn pending(&self) -> (r: Vec<u8>)
        requires
            self@.wf(),
        ensures
            r@ == self@.buffer.subrange(0, self@.count as int),
    {
        self.prefix(self.count)
    }
}

/// Cuts `data` into transfer units, in order: each unit full but the last,
/// which holds what is left.
pub fn chunk_bytes(data: &[u8]) -> (r: Vec<Vec<u8>>)
    ensures
        concat_chunks(chunk_views(r@)) == data@,
        is_chunking(chunk_views(r@)),
{
    let mut out: Vec<Vec<u8>> = Vec::new();
    let mut buf = MsgBuf::new();
    let mut i: usize = 0;
    while i < data.len()
        invariant
            i <= data@.len(),
            buf@.wf(),
            concat_chunks(chunk_views(out@)) + buf@.buffer.subrange(0, buf@.count as int)
                == data@.subrange(0, i as int),
            forall|k: int| 0 <= k < out@.len() ==> #[trigger] out@[k]@.len() == BUFFER_SIZE,
        decreases (data@.len() - i) * 2 + if buf@.count == BUFFER_SIZE {
            1int
        } else {
            0int
        },
    {
        let ghost done = chunk_views(out@);
        let ghost before = buf@;
        if buf.msg_filled(&data[i]) {
            let unit = buf.unit();
            out.push(unit);
            assert(chunk_views(out@).drop_last() =~= done);
            assert(before.buffer.subrange(0, before.count as int) =~= before.buffer);
            assert(buf@.buffer.subrange(0, 0) =~= Seq::<u8>::empty());
            assert(concat_chunks(chunk_views(out@)) + buf@.buffer.subrange(0, buf@.count as int)
                =~= concat_chunks(done) + before.buffer.subrange(0, before.count as int));
        } else {
            assert(buf@.buffer.subrange(0, buf@.count as int) =~= before.buffer.subrange(
                0,
                before.count as int,
            ).push(data@[i as int]));
            i += 1;
            assert(data@.subrange(0, i as int) =~= data@.subrange(0, i - 1).push(data@[i - 1]));
        }
    }
    if buf.count() > 0 {
        let ghost done = chunk_views(out@);
        let unit = buf.pending();
        out.push(unit);
        assert(chunk_views(out@).drop_last() =~= done);
    }
    assert(data@.subrange(0, data@.len() as int) =~= data@);
    out
}

/// The bytes of `stream` past the first `seen`; none when the stream is
/// shorter than that.
pub open spec fn new_output(seen: nat, stream: Seq<u8>) -> Seq<u8> {
    if seen <= stream.len() {
        stream.subrange(seen as int, stream.len() as int)
    } else {
        Seq::empty()
    }
}

/// A follower's position in an append-only output stream. Each follower keeps
/// its own; the stream itself knows of none.
pub struct FollowCursor {
    pub seen: usize,
}

impl FollowCursor {
    /// A follower that has seen nothing yet.
    pub fn new() -> (r: Self)
        ensures
            r.seen == 0,
    {
        FollowCursor { seen: 0 }
    }

    /// The bytes appended to `stream` since the last poll, in order; the
    /// cursor then stands at the end of the stream.
    pub fn poll(&mut self, stream: &[u8]) -> (r: Vec<u8>)
        ensures
            r@ == new_output(old(self).seen as nat, stream@),
            final(self).seen == if old(self).seen <= stream@.len() {
                stream@.len()
            } else {
                old(self).seen as nat
            },
    {
        let mut out: Vec<u8> = Vec::new();
        if self.seen > stream.len() {
            return out;
        }
        let mut i: usize = self.seen;
        while i < stream.len()
            invariant
                self.seen <= i <= stream@.len(),
                out@ == stream@.subrange(self.seen as int, i as int),
            decreases stream@.len() - i,
        {
            out.push(stream[i]);
            i += 1;
            assert(out@ =~= stream@.subrange(self.seen as int, i as int));
        }
        self.seen = stream.len();
        out
    }

    /// The deliveries of one poll: the new bytes cut into transfer units.
    pub fn poll_chunks(&mut self, stream: &[u8]) -> (r: Vec<Vec<u8>>)
        ensures
            concat_chunks(chunk_views(r@)) == new_output(old(self).seen as nat, stream@),
            is_chunking(chunk_views(r@)),
            final(self).seen == if old(self).seen <= stream@.len() {
                stream@.len()
            } else {
                old(self).seen as nat
            },
    {
        let fresh = self.poll(stream);
        chunk_bytes(fresh.as_slice())
    }
}

/// Follow and snapshot reads agree: a follower that polls a stream, and polls
/// again after more bytes were appended, receives the first stream and then
/// exactly the appended bytes; together they are the whole stream, which is
/// what a snapshot read returns, with nothing repeated and nothing reordered.
pub proof fn lemma_follow_delivers_each_byte_once(first: Seq<u8>, appended: Seq<u8>)
    ensures
        new_output(0, first) == first,
        new_output(first.len(), first + appended) == appended,
        new_output(0, first) + new_output(first.len(), first + appended) == first + appended,
{
    assert(first.subrange(0, first.len() as int) =~= first);
    assert((first + appended).subrange(first.len() as int, (first + appended).len() as int)
        =~= appended);
}

} // verus!
