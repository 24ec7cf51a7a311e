//! Sender-side batch construction.
//!
//! The sender builds its whole batch, encodes and compresses it into one
//! payload, and only then opens a connection, writes every byte, and closes
//! — the closure is the receiver's only framing signal. Everything up to the
//! payload bytes is here; the connection itself belongs to the surrounding
//! runtime.

use vstd::prelude::*;
use vstd::string::StringExecFns;
use crate::codec::{
    container_len_of, decode_spec, encode_batch, DecodeError, EncodeError, MAX_CONTAINER_BYTES,
};
use crate::record::{RecordData, views_of};

verus! {

/// The view of the demonstration record the sender transmits: `{a: 27, b: "foo"}`.
pub open spec fn demo_record_view() -> (int, Seq<char>) {
    (27int, "foo"@)
}

/// Builds a batch of `count` copies of the demonstration record.
pub fn make_batch(count: usize) -> (r: Vec<RecordData>)
    ensures
        r@.len() == count,
        forall|i: int| 0 <= i < count ==> r@[i]@ == demo_record_view(),
{
    let mut batch: Vec<RecordData> = Vec::new();
    let mut i: usize = 0;
    while i < count
        invariant
            i <= count,
            batch@.len() == i,
            forall|j: int| 0 <= j < i ==> batch@[j]@ == demo_record_view(),
        decreases count - i,
    {
        batch.push(RecordData::new(27, String::from_str("foo")));
        i += 1;
    }
    batch
}

/// Builds and encodes a batch of `count` demonstration records into one
/// payload, ready to be written whole and sealed by closing the stream.
///
/// Success is owed whenever the container for `count` demonstration records
/// fits the receive-side decompression budget; the records themselves are
/// valid against the schema by construction. On success the payload decodes
/// back to exactly `count` demonstration records in order, it is never
/// empty, and every strict non-empty prefix of it fails to decode.
pub fn build_payload(count: usize) -> (r: Result<Vec<u8>, EncodeError>)
    ensures
        r matches Ok(p) ==> decode_spec(p@) == Ok::<_, DecodeError>(
            Seq::new(count as nat, |i: int| demo_record_view()),
        ),
        r matches Ok(p) ==> p@.len() > 0,
        r matches Ok(p) ==> forall|i: int|
            0 < i < p@.len() ==> #[trigger] decode_spec(p@.subrange(0, i)) is Err,
        container_len_of(Seq::new(count as nat, |i: int| demo_record_view()))
            <= MAX_CONTAINER_BYTES ==> r is Ok,
        r matches Err(e) ==> e == EncodeError::Compress,
{
    let batch = make_batch(count);
    proof {
        assert(views_of(batch@) =~= Seq::new(count as nat, |i: int| demo_record_view()));
    }
    encode_batch(&batch)
}

} // verus!
