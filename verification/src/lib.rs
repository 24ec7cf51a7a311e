//! Verified core of a one-shot record transfer pipeline.
//!
//! A sender encodes a batch of records into a self-describing container,
//! compresses it, and ships the bytes over a single byte-stream connection,
//! closing the stream to mark the end of the payload. A receiver accumulates
//! every byte until it observes stream closure, then decompresses and decodes
//! the container and reports the records in their original order.
//!
//! The modules cover, in order: the record shape of the fixed transfer schema
//! ([`record`]), the encode/decode pipeline over the container and compression
//! layers ([`codec`]), the close-delimited stream accumulator
//! ([`accumulator`]), the per-connection handler state machine ([`handler`]),
//! and the sender-side batch construction ([`sender`]).

pub mod accumulator;
pub mod codec;
pub mod handler;
pub mod record;
pub mod sender;
