//! The encode/decode pipeline over the container and compression layers.
//!
//! A payload on the wire is `compress(serialize(batch))`: the batch is written
//! into a self-describing container (which embeds the schema), and the whole
//! container is then compressed. Decoding applies the inverse transform and
//! parses the container against its embedded schema.
//!
//! Both layers are outside libraries. Their behaviour on given bytes is
//! deterministic but far too large to state, so it is named by the
//! uninterpreted functions [`unzstd_of`] (what decompression yields) and
//! [`container_records`] (which records a container holds), and the verified
//! pipeline is specified exactly in terms of those names: encoding produces
//! bytes whose decoding, by [`decode_spec`], is the encoded batch.

use vstd::prelude::*;
use crate::record::{RecordData, views_of};

verus! {

/// The largest container (in bytes) that the decompression stage will
/// reproduce: its in-place allocation budget. A payload whose container is
/// larger would be rejected by every receiver, so the encoder refuses to
/// build it.
pub const MAX_CONTAINER_BYTES: usize = 512 * 1024 * 1024;

/// Why a payload could not be decoded.
#[derive(Clone, Copy, Debug, PartialEq, Eq)]
pub enum DecodeError {
    /// The compression layer could not parse its input: the payload is
    /// corrupt, truncated, empty, or would decompress past the allocation
    /// budget.
    Decompress,
    /// The decompressed bytes are not a well-formed container of records of
    /// the transfer schema: the header is malformed or a record does not
    /// parse against the embedded schema.
    Container,
}

/// A decode failure: which stage refused, and what was still salvaged.
#[derive(Clone, Debug, PartialEq, Eq)]
pub struct DecodeFailure {
    /// The stage that refused.
    pub error: DecodeError,
    /// The records decoded before the failure, in written order. A container
    /// that fails at its k-th record still yields the k-1 records before it;
    /// a decompression failure yields none, since nothing was decoded.
    pub partial: Vec<RecordData>,
}

/// Why a batch could not be encoded.
#[derive(Clone, Copy, Debug, PartialEq, Eq)]
pub enum EncodeError {
    /// The container writer rejected the batch against the schema. A
    /// [`RecordData`] is valid by construction, so no function of this crate
    /// produces this variant; it stands for the sender-side schema failure
    /// of the error taxonomy, guarding the writer's (never-taken) refusal
    /// path.
    Schema,
    /// The serialized container is over the receive-side decompression
    /// budget: compressing it would yield a payload no receiver accepts.
    Compress,
}

/// What decompressing the given bytes yields: the original container for a
/// well-formed compressed stream, and nothing for corrupt, truncated or empty
/// input (or output past the allocation budget).
pub uninterp spec fn unzstd_of(bytes: Seq<u8>) -> Option<Seq<u8>>;

/// The record views embedded in the given container bytes, in written order,
/// or nothing when the bytes are not a well-formed container of records of
/// the transfer schema.
pub uninterp spec fn container_records(bytes: Seq<u8>) -> Option<Seq<(int, Seq<char>)>>;

/// The record views the container parse yields before its first failure, in
/// written order: all of them for a well-formed container, the clean prefix
/// for one that fails at some record, and none for a malformed header.
pub uninterp spec fn container_prefix(bytes: Seq<u8>) -> Seq<(int, Seq<char>)>;

/// The byte length of the container the writer produces for the given record
/// views. The schema, codec marker and sync-marker sizes are fixed and each
/// record's encoding depends on its field values alone, so the length is a
/// function of the views, although the bytes themselves are not (the sync
/// marker is drawn at random).
pub uninterp spec fn container_len_of(views: Seq<(int, Seq<char>)>) -> nat;

/// What decoding yields on given payload bytes: decompression first, then
/// the container parse, each failure reported as its own error.
pub open spec fn decode_spec(bytes: Seq<u8>) -> Result<Seq<(int, Seq<char>)>, DecodeError> {
    match unzstd_of(bytes) {
        Some(container) => match container_records(container) {
            Some(views) => Ok(views),
            None => Err(DecodeError::Container),
        },
        None => Err(DecodeError::Decompress),
    }
}

/// The records decoding salvages even when it fails partway: every record
/// decoded before the first failure, in written order, and none when
/// decompression itself failed.
pub open spec fn decode_partial_spec(bytes: Seq<u8>) -> Seq<(int, Seq<char>)> {
    match unzstd_of(bytes) {
        Some(container) => container_prefix(container),
        None => Seq::empty(),
    }
}

/// Relies on `apache_avro::Codec::Zstandard.compress`: the compressed stream
/// is one complete frame that decompresses back to exactly the input (the
/// input is within the decompression budget, so the budget cannot strike),
/// and the frame format makes every strict prefix fail to decompress (a
/// truncated frame is detected, never silently completed); the frame starts
/// with a magic number, so it is never empty. Compressing into an in-memory
/// buffer refuses no input: the encoder's failure paths are destination I/O
/// errors, which a `Vec` does not raise, and running out of memory, on a par
/// with any allocation here.
#[verifier::external_body]
fn compress(bytes: Vec<u8>) -> (r: Option<Vec<u8>>)
    requires
        bytes@.len() <= MAX_CONTAINER_BYTES,
    ensures
        r is Some,
        r matches Some(c) ==> unzstd_of(c@) == Some(bytes@),
        r matches Some(c) ==> c@.len() > 0,
        r matches Some(c) ==> forall|i: int|
            0 < i < c@.len() ==> #[trigger] unzstd_of(c@.subrange(0, i)) is None,
{
    let mut buf = bytes;
    match apache_avro::Codec::Zstandard(apache_avro::ZstandardSettings::default()).compress(&mut buf) {
        Ok(()) => Some(buf),
        Err(_) => None,
    }
}

/// Relies on `apache_avro::Codec::Zstandard.decompress`: a deterministic
/// function of the bytes alone (under the library's default allocation
/// budget, which nothing here changes), failing on anything that is not a
/// complete well-formed frame; empty input holds no frame and always fails.
#[verifier::external_body]
fn decompress(bytes: &Vec<u8>) -> (r: Option<Vec<u8>>)
    ensures
        r matches Some(c) ==> unzstd_of(bytes@) == Some(c@),
        r is None ==> unzstd_of(bytes@) is None,
        bytes@.len() == 0 ==> r is None,
{
    let mut buf = bytes.clone();
    match apache_avro::Codec::Zstandard(apache_avro::ZstandardSettings::default()).decompress(&mut buf) {
        Ok(()) => Some(buf),
        Err(_) => None,
    }
}

/// Relies on `apache_avro::Writer`: every record appended in order is read
/// back, in that order and with the same field values, by
/// `apache_avro::Reader` from the container bytes the writer produced; the
/// container always starts with a non-empty header. The writer refuses no
/// batch of this shape: the constant schema parses, a long and a string
/// always validate against their declared fields, and all writes go to an
/// in-memory buffer. The container's length is a function of the record
/// views alone: the header's two metadata entries and the sync markers have
/// fixed sizes whatever their order, and each record's encoding depends
/// only on its field values.
#[verifier::external_body]
fn write_container(records: &Vec<RecordData>) -> (r: Option<Vec<u8>>)
    ensures
        r is Some,
        r matches Some(c) ==> container_records(c@) == Some(views_of(records@)),
        r matches Some(c) ==> c@.len() == container_len_of(views_of(records@)),
        r matches Some(c) ==> c@.len() > 0,
{
    let schema = apache_avro::Schema::parse_str(
        r#"{"type":"record","name":"test","fields":[{"name":"a","type":"long","default":42},{"name":"b","type":"string"}]}"#,
    ).ok()?;
    let mut writer = apache_avro::Writer::new(&schema, Vec::new()).ok()?;
    for rec in records.iter() {
        let mut row = apache_avro::types::Record::new(writer.schema())?;
        row.put("a", rec.a);
        row.put("b", rec.b.as_str());
        writer.append(row).ok()?;
    }
    writer.into_inner().ok()
}

/// Relies on `apache_avro::Reader`: parses the container header and yields
/// each embedded record in written order, stopping at the first failure — a
/// malformed header, an unparseable record, or a record not of the transfer
/// shape (one long field, then one string field). The records decoded before
/// the failure are handed back with the flag down. The result is a function
/// of the bytes alone, and empty input has no header.
#[verifier::external_body]
fn read_container(bytes: &Vec<u8>) -> (r: (Vec<RecordData>, bool))
    ensures
        r.1 ==> container_records(bytes@) == Some(views_of(r.0@)),
        !r.1 ==> container_records(bytes@) is None,
        views_of(r.0@) == container_prefix(bytes@),
        bytes@.len() == 0 ==> !r.1 && r.0@.len() == 0,
{
    let mut out: Vec<RecordData> = Vec::new();
    let reader = match apache_avro::Reader::new(&bytes[..]) { Ok(x) => x, Err(_) => return (out, false) };
    for item in reader {
        match item {
            Ok(apache_avro::types::Value::Record(fields)) => match fields.as_slice() {
                [(_, apache_avro::types::Value::Long(a)), (_, apache_avro::types::Value::String(b))] => {
                    out.push(RecordData { a: *a, b: b.clone() })
                }
                _ => return (out, false),
            },
            _ => return (out, false),
        }
    }
    (out, true)
}

/// Serializes the batch into a container and compresses it into one payload.
///
/// Success is owed: a [`RecordData`] is valid against the schema by
/// construction, so the only way to fail is a container over the
/// receive-side decompression budget, and whenever the container fits —
/// [`container_len_of`] of the batch's views is within
/// [`MAX_CONTAINER_BYTES`] — the result is `Ok`. On success the payload
/// decodes back, by [`decode_spec`], to exactly the encoded batch (same
/// values, same order), it is never empty, and every strict non-empty
/// prefix of it fails to decode — truncation on the wire is always
/// detected.
pub fn encode_batch(records: &Vec<RecordData>) -> (r: Result<Vec<u8>, EncodeError>)
    ensures
        r matches Ok(payload) ==> decode_spec(payload@) == Ok::<_, DecodeError>(views_of(records@)),
        r matches Ok(payload) ==> payload@.len() > 0,
        r matches Ok(payload) ==> forall|i: int|
            0 < i < payload@.len() ==> #[trigger] decode_spec(payload@.subrange(0, i)) is Err,
        container_len_of(views_of(records@)) <= MAX_CONTAINER_BYTES ==> r is Ok,
        r matches Err(e) ==> e == EncodeError::Compress,
        r matches Err(e) ==> container_len_of(views_of(records@)) > MAX_CONTAINER_BYTES,
{
    let container = match write_container(records) {
        Some(c) => c,
        None => return Err(EncodeError::Schema),
    };
    if container.len() > MAX_CONTAINER_BYTES {
        return Err(EncodeError::Compress);
    }
    match compress(container) {
        Some(payload) => {
            proof {
                assert forall|i: int| 0 < i < payload@.len()
                    implies #[trigger] decode_spec(payload@.subrange(0, i)) is Err by {
                    assert(unzstd_of(payload@.subrange(0, i)) is None);
                }
            }
            Ok(payload)
        }
        None => Err(EncodeError::Compress),
    }
}

/// Decompresses the payload and parses the container, yielding the records
/// in written order.
///
/// The result is exactly [`decode_spec`] of the input: `Ok` precisely on the
/// payloads whose decompression and container parse both succeed, and the
/// error says which stage refused. A container that fails partway still
/// yields every record decoded before the failure, in order, carried by the
/// [`DecodeFailure`]; decoding then stops — no retry, no skip. An empty
/// payload (a peer that closed without writing) always fails with nothing
/// salvaged and is reported, never a crash.
pub fn decode_batch(bytes: &Vec<u8>) -> (r: Result<Vec<RecordData>, DecodeFailure>)
    ensures
        r matches Ok(recs) ==> decode_spec(bytes@) == Ok::<_, DecodeError>(views_of(recs@)),
        r matches Ok(recs) ==> views_of(recs@) == decode_partial_spec(bytes@),
        r matches Err(f) ==> decode_spec(bytes@) == Err::<Seq<(int, Seq<char>)>, _>(f.error),
        r matches Err(f) ==> views_of(f.partial@) == decode_partial_spec(bytes@),
        bytes@.len() == 0 ==> (r matches Err(f)
            && f.error == DecodeError::Decompress
            && f.partial@.len() == 0),
{
    let container = match decompress(bytes) {
        Some(c) => c,
        None => {
            let partial: Vec<RecordData> = Vec::new();
            proof {
                assert(views_of(partial@) =~= decode_partial_spec(bytes@));
            }
            return Err(DecodeFailure { error: DecodeError::Decompress, partial });
        }
    };
    let (records, complete) = read_container(&container);
    if complete {
        Ok(records)
    } else {
        Err(DecodeFailure { error: DecodeError::Container, partial: records })
    }
}

} // verus!
