//! Chunked byte stream: a finite, forward-only sequence of non-empty chunks
//! whose concatenation is exactly the source's content.

use vstd::prelude::*;

verus! {

/// Upper bound on the size of one chunk.
pub const CHUNK_SIZE: usize = 1024;

/// One step of the reader adapter, from the outcome of a single read into
/// `buf`: a read of zero bytes ends the sequence cleanly, and any other read
/// yields the first `n` bytes of the buffer as the next chunk.
pub fn chunk_from_read(buf: &[u8], n: usize) -> (r: Option<Vec<u8>>)
    requires
        n <= buf@.len(),
    ensures
        match r {
            None => n == 0,
            Some(chunk) => n > 0 && chunk@ == buf@.take(n as int),
        },
{
    if n == 0 {
        return None;
    }
    let mut chunk: Vec<u8> = Vec::new();
    let mut i: usize = 0;
    while i < n
        invariant
            n <= buf@.len(),
            i <= n,
            chunk@ == buf@.take(i as int),
        decreases n - i,
    {
        chunk.push(buf[i]);
        proof {
            assert(chunk@ =~= buf@.take(i + 1));
        }
        i += 1;
    }
    Some(chunk)
}

/// A one-pass stream of chunks over an in-memory byte source. Each pull
/// consumes up to `CHUNK_SIZE` of the bytes still to come; the stream ends
/// exactly when none are left.
pub struct ByteStream {
    data: Vec<u8>,
    pos: usize,
}

impl ByteStream {
    /// All bytes the stream was created over.
    pub closed spec fn content(&self) -> Seq<u8> {
        self.data@
    }

    /// How many bytes have already been emitted.
    pub closed spec fn emitted(&self) -> int {
        self.pos as int
    }

    /// The stream's one invariant: it never stands past its content.
    pub open spec fn wf(&self) -> bool {
        0 <= self.emitted() <= self.content().len()
    }

    /// The bytes still to come, in order.
    pub open spec fn remaining(&self) -> Seq<u8> {
        self.content().skip(self.emitted())
    }

    /// Wrap a byte source; nothing is emitted yet.
    pub fn new(data: Vec<u8>) -> (r: ByteStream)
        ensures
            r.wf(),
            r.content() == data@,
            r.emitted() == 0,
    {
        ByteStream { data, pos: 0 }
    }

    /// Pull the next chunk: a non-empty prefix of the remaining bytes, at
    /// most `CHUNK_SIZE` long, or nothing once the source is exhausted.
    pub fn next_chunk(&mut self) -> (r: Option<Vec<u8>>)
        requires
            old(self).wf(),
        ensures
            final(self).wf(),
            final(self).content() == old(self).content(),
            match r {
                None => {
                    &&& old(self).remaining().len() == 0
                    &&& final(self).emitted() == old(self).emitted()
                },
                Some(chunk) => {
                    &&& 0 < chunk@.len() <= CHUNK_SIZE
                    &&& chunk@ == old(self).remaining().take(chunk@.len() as int)
                    &&& final(self).emitted() == old(self).emitted() + chunk@.len()
                },
            },
    {
        let left = self.data.len() - self.pos;
        if left == 0 {
            return None;
        }
        let take: usize = if left < CHUNK_SIZE {
            left
        } else {
            CHUNK_SIZE
        };
        let mut chunk: Vec<u8> = Vec::new();
        let mut i: usize = 0;
        while i < take
            invariant
                self.pos + take <= self.data@.len(),
                self.data@.len() <= usize::MAX,
                i <= take,
                chunk@ == self.data@.subrange(self.pos as int, self.pos + i as int),
                self.pos == old(self).pos,
                self.data == old(self).data,
            decreases take - i,
        {
            let b = self.data[self.pos + i];
            chunk.push(b);
            proof {
                assert(chunk@ =~= self.data@.subrange(self.pos as int, self.pos + i + 1));
            }
            i += 1;
        }
        proof {
            assert(chunk@ =~= old(self).remaining().take(take as int));
        }
        self.pos = self.pos + take;
        Some(chunk)
    }

    /// Drain the stream: the concatenation, in order, of every chunk it
    /// yields. The result is exactly the bytes that remained, so a stream
    /// over a full source hands back that source's content, byte for byte.
    pub fn read_all(&mut self) -> (r: Vec<u8>)
        requires
            old(self).wf(),
        ensures
            final(self).wf(),
            final(self).content() == old(self).content(),
            r@ == old(self).remaining(),
            final(self).remaining().len() == 0,
    {
        let mut out: Vec<u8> = Vec::new();
        let mut done = false;
        while !done
            invariant
                self.wf(),
                self.content() == old(self).content(),
                out@ + self.remaining() == old(self).remaining(),
                done ==> self.remaining().len() == 0,
            decreases self.remaining().len() + (if done {
                0int
            } else {
                1int
            }),
        {
            match self.next_chunk() {
                Some(mut chunk) => {
                    out.append(&mut chunk);
                    proof {
                        assert(out@ + self.remaining() =~= old(self).remaining());
                    }
                },
                None => {
                    done = true;
                },
            }
        }
        proof {
            assert(out@ =~= old(self).remaining());
        }
        out
    }
}

/// Serving the same bytes twice gives byte-identical bodies: `read_all`
/// returns exactly `remaining()`, and two fresh streams over equal content
/// share it, so nothing about a stream's history or identity can change what
/// comes out.
pub proof fn lemma_stream_idempotent(a: ByteStream, b: ByteStream)
    requires
        a.wf(),
        b.wf(),
        a.content() == b.content(),
        a.emitted() == 0,
        b.emitted() == 0,
    ensures
        a.remaining() == b.remaining(),
{
}

} // verus!
