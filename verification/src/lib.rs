//! Verified ingestion pipeline for an account-model ledger.
//!
//! The ledger exposes opaque binary blobs per account; this library
//! turns that stream into a consistent, queryable relational image:
//!
//! - [`registry`] — the static mapping from an account's 8-byte
//!   discriminator to the record type it selects;
//! - [`wire`] and [`codec`] — the binary layout: little-endian integers,
//!   32-byte keys, NUL-padded text fields, tagged unions and nested
//!   child arrays, each with a specification encoder and parser and the
//!   lemmas tying them together;
//! - [`records`] and [`decode`] — the typed records and the executable
//!   decoders and encoders, proved exact against the specification
//!   parsers, with the round-trip and count-mismatch laws;
//! - [`table`] and [`store`] — the projection store: one relation per
//!   record type with replace-whole-row upserts, viewed as maps;
//! - [`ingest`] — the streaming loop: idempotent application of
//!   account-update events, skip semantics for unknown or malformed
//!   accounts, cooperative cancellation, and the laws of all of that;
//! - [`snapshot`] — the point-in-time archive: a length-prefixed binary
//!   container, gzip-compressed as a separate stage, with an exact
//!   round trip.

pub mod codec;
pub mod decode;
pub mod ingest;
pub mod records;
pub mod registry;
pub mod snapshot;
pub mod store;
pub mod table;
pub mod wire;
