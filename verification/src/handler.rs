//! The per-connection handler state machine.
//!
//! One handler owns one connection end-to-end: it drives an
//! [`Accumulator`](crate::accumulator::Accumulator) while the stream is open,
//! and on the first terminal event — stream closure or a transport fault —
//! settles into a terminal outcome and never receives again. Handlers share
//! no state: what one reports is a function of the events of its own
//! connection alone, so concurrent connections cannot interfere.
//!
//! The surrounding runtime performs the reads and feeds each result in as a
//! [`StreamEvent`]; every decision (buffer, decode, report, fail) is made
//! here.

use vstd::prelude::*;
use crate::accumulator::{joined, Accumulator};
use crate::codec::{decode_batch, decode_partial_spec, decode_spec};
use crate::record::{RecordData, views_of};

verus! {

/// One observation made on a connection's byte stream.
pub enum StreamEvent {
    /// The transport handed over a chunk of bytes.
    Data(Vec<u8>),
    /// The peer closed the stream: end of the payload.
    Closed,
    /// The transport raised a fault (not mere end-of-stream).
    Fault,
}

/// Why a connection's transfer failed.
#[derive(Clone, Copy, Debug, PartialEq, Eq)]
pub enum FailCause {
    /// The stream raised a transport fault during accumulation.
    ConnectionFault,
    /// Accumulation completed but the payload did not decode.
    PayloadFault,
}

/// What one event made of the connection.
pub enum Outcome {
    /// The stream is still open; keep reading.
    Pending,
    /// The payload decoded: the records in their original order, and the
    /// total byte count of the payload.
    Reported { records: Vec<RecordData>, total: usize },
    /// The transfer failed; the byte count observed so far is still
    /// reported, so a failed transfer remains visible, and a payload that
    /// decoded partway still hands over the records decoded before the
    /// failure, in their written order (none on a transport fault: nothing
    /// is decoded before closure).
    Failed { cause: FailCause, partial: Vec<RecordData>, total: usize },
}

/// The state of one connection's handler: its peer's identity, its own
/// accumulation buffer, and whether a terminal outcome was reached.
pub struct Handler {
    /// The peer identity the outcomes are tagged with.
    pub peer: String,
    /// The connection's own accumulation buffer; no other handler sees it.
    pub acc: Accumulator,
    /// Whether the handler reached `Reported` or `Failed`. Terminal states
    /// are never left: a handler processes exactly one payload.
    pub done: bool,
}

impl Handler {
    /// A fresh handler for a newly accepted connection.
    pub fn new(peer: String) -> (r: Handler)
        ensures
            r.peer == peer,
            r.acc.buf@ == Seq::<u8>::empty(),
            !r.acc.closed,
            !r.done,
    {
        Handler { peer, acc: Accumulator::new(), done: false }
    }

    /// Feeds one stream observation into the handler.
    ///
    /// While receiving, a chunk is appended and nothing else changes. On
    /// closure the accumulated buffer — and only then, never a partial
    /// buffer — is decoded: the records are reported in their original
    /// order together with the total byte count, or the transfer fails as a
    /// `PayloadFault` that still carries the byte count and the records
    /// decoded before the failure. On a transport fault the transfer fails
    /// as a `ConnectionFault` with nothing decoded. Closure and fault are
    /// terminal: the handler is done and takes no further event.
    pub fn on_event(&mut self, ev: StreamEvent) -> (out: Outcome)
        requires
            !old(self).done,
            !old(self).acc.closed,
        ensures
            final(self).peer == old(self).peer,
            match ev {
                StreamEvent::Data(chunk) => {
                    &&& !final(self).done
                    &&& !final(self).acc.closed
                    &&& final(self).acc.buf@ == old(self).acc.buf@ + chunk@
                    &&& out is Pending
                },
                StreamEvent::Closed => {
                    &&& final(self).done
                    &&& final(self).acc.buf@ == old(self).acc.buf@
                    &&& match decode_spec(old(self).acc.buf@) {
                        Ok(views) => out matches Outcome::Reported { records, total }
                            && views_of(records@) == views
                            && total == old(self).acc.buf@.len(),
                        Err(_) => out matches Outcome::Failed { cause, partial, total }
                            && cause == FailCause::PayloadFault
                            && views_of(partial@) == decode_partial_spec(old(self).acc.buf@)
                            && total == old(self).acc.buf@.len(),
                    }
                },
                StreamEvent::Fault => {
                    &&& final(self).done
                    &&& final(self).acc.buf@ == old(self).acc.buf@
                    &&& (out matches Outcome::Failed { cause, partial, total }
                        && cause == FailCause::ConnectionFault
                        && partial@.len() == 0
                        && total == old(self).acc.buf@.len())
                },
            },
    {
        match ev {
            StreamEvent::Data(chunk) => {
                self.acc.push_chunk(chunk.as_slice());
                Outcome::Pending
            }
            StreamEvent::Closed => {
                self.acc.close();
                self.done = true;
                let total = self.acc.total_len();
                match decode_batch(&self.acc.buf) {
                    Ok(records) => Outcome::Reported { records, total },
                    Err(failure) => Outcome::Failed {
                        cause: FailCause::PayloadFault,
                        partial: failure.partial,
                        total,
                    },
                }
            }
            StreamEvent::Fault => {
                self.done = true;
                let total = self.acc.total_len();
                Outcome::Failed { cause: FailCause::ConnectionFault, partial: Vec::new(), total }
            }
        }
    }
}

/// An owned copy of a received chunk, ready to be carried by an event.
fn copy_bytes(chunk: &[u8]) -> (r: Vec<u8>)
    ensures
        r@ == chunk@,
{
    let n: usize = chunk.len();
    let mut out: Vec<u8> = Vec::new();
    let mut i: usize = 0;
    while i < n
        invariant
            n == chunk@.len(),
            i <= n,
            out@ =~= chunk@.subrange(0, i as int),
        decreases n - i,
    {
        out.push(chunk[i]);
        i += 1;
    }
    proof {
        assert(chunk@.subrange(0, n as int) =~= chunk@);
    }
    out
}

/// Isolation, at the level one connection can show it: a connection's
/// outcome is a function of its own stream alone. Delivering the given
/// chunks — with any boundaries — and then closure yields exactly the decode
/// of their concatenation, reported with its byte count; nothing another
/// connection does can enter, since a handler reads no state but its own.
pub fn run_connection(peer: String, chunks: &Vec<Vec<u8>>) -> (out: Outcome)
    ensures
        match decode_spec(joined(chunks@.map_values(|c: Vec<u8>| c@))) {
            Ok(views) => out matches Outcome::Reported { records, total }
                && views_of(records@) == views
                && total == joined(chunks@.map_values(|c: Vec<u8>| c@)).len(),
            Err(_) => out matches Outcome::Failed { cause, partial, total }
                && cause == FailCause::PayloadFault
                && views_of(partial@) == decode_partial_spec(joined(chunks@.map_values(|c: Vec<u8>| c@)))
                && total == joined(chunks@.map_values(|c: Vec<u8>| c@)).len(),
        },
{
    let ghost model = chunks@.map_values(|c: Vec<u8>| c@);
    let mut handler = Handler::new(peer);
    let mut i: usize = 0;
    while i < chunks.len()
        invariant
            i <= chunks@.len(),
            model == chunks@.map_values(|c: Vec<u8>| c@),
            !handler.done,
            !handler.acc.closed,
            handler.acc.buf@ == joined(model.take(i as int)),
        decreases chunks@.len() - i,
    {
        handler.on_event(StreamEvent::Data(copy_bytes(chunks[i].as_slice())));
        proof {
            assert(model.take(i + 1 as int).drop_last() =~= model.take(i as int));
            assert(model.take(i + 1 as int).last() == model[i as int]);
        }
        i += 1;
    }
    proof {
        assert(model.take(chunks@.len() as int) =~= model);
    }
    handler.on_event(StreamEvent::Closed)
}

} // verus!
