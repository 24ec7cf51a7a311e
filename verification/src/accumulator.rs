//! The close-delimited stream accumulator.
//!
//! The transport offers no length prefix and no delimiter: the only framing
//! signal is the peer closing the stream. A receiver therefore appends every
//! chunk the transport hands it, in arrival order, and treats the buffer as
//! the complete payload only once closure is observed. The buffer is
//! append-only while open and read-only once closed.

use vstd::prelude::*;

verus! {

/// The bytes of a sequence of chunks, in delivery order.
pub open spec fn joined(chunks: Seq<Seq<u8>>) -> Seq<u8>
    decreases chunks.len(),
{
    if chunks.len() == 0 {
        Seq::empty()
    } else {
        joined(chunks.drop_last()) + chunks.last()
    }
}

/// A growing buffer of received bytes, append-only until the stream closes.
pub struct Accumulator {
    /// Every byte received so far, in arrival order.
    pub buf: Vec<u8>,
    /// Whether stream closure has been observed. Once set, the buffer is
    /// final: no operation appends past it.
    pub closed: bool,
}

impl Accumulator {
    /// An empty, open accumulator for a fresh connection.
    pub fn new() -> (r: Accumulator)
        ensures
            r.buf@ == Seq::<u8>::empty(),
            !r.closed,
    {
        Accumulator { buf: Vec::new(), closed: false }
    }

    /// Appends one received chunk to the buffer, which must still be open.
    pub fn push_chunk(&mut self, chunk: &[u8])
        requires
            !old(self).closed,
        ensures
            final(self).buf@ == old(self).buf@ + chunk@,
            !final(self).closed,
    {
        let n = chunk.len();
        let mut i: usize = 0;
        while i < n
            invariant
                n == chunk@.len(),
                i <= n,
                !self.closed,
                self.buf@ =~= old(self).buf@ + chunk@.subrange(0, i as int),
            decreases n - i,
        {
            self.buf.push(chunk[i]);
            proof {
                assert(self.buf@ =~= old(self).buf@ + chunk@.subrange(0, i + 1 as int));
            }
            i += 1;
        }
        proof {
            assert(chunk@.subrange(0, n as int) =~= chunk@);
        }
    }

    /// Records that stream closure was observed: the buffer is complete.
    pub fn close(&mut self)
        requires
            !old(self).closed,
        ensures
            final(self).closed,
            final(self).buf@ == old(self).buf@,
    {
        self.closed = true;
    }

    /// The total number of bytes received so far.
    pub fn total_len(&self) -> (n: usize)
        ensures
            n == self.buf@.len(),
    {
        self.buf.len()
    }

    /// Hands out the complete buffer, consuming the accumulator.
    pub fn into_bytes(self) -> (r: Vec<u8>)
        ensures
            r@ == self.buf@,
    {
        self.buf
    }
}

/// Close-delimited framing: delivering a byte sequence as any series of
/// chunks and then closing yields exactly their concatenation. The chunk
/// boundaries (and any delays between deliveries) leave no trace in the
/// accumulated bytes.
pub fn accumulate_chunks(chunks: &Vec<Vec<u8>>) -> (r: Accumulator)
    ensures
        r.closed,
        r.buf@ == joined(chunks@.map_values(|c: Vec<u8>| c@)),
{
    let ghost model = chunks@.map_values(|c: Vec<u8>| c@);
    let mut acc = Accumulator::new();
    let mut i: usize = 0;
    while i < chunks.len()
        invariant
            i <= chunks@.len(),
            model == chunks@.map_values(|c: Vec<u8>| c@),
            !acc.closed,
            acc.buf@ == joined(model.take(i as int)),
        decreases chunks@.len() - i,
    {
        acc.push_chunk(chunks[i].as_slice());
        proof {
            assert(model.take(i + 1 as int).drop_last() =~= model.take(i as int));
            assert(model.take(i + 1 as int).last() == model[i as int]);
        }
        i += 1;
    }
    proof {
        assert(model.take(chunks@.len() as int) =~= model);
    }
    acc.close();
    acc
}

} // verus!
