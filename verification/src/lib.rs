//! A streaming ZIP64 archive encoder.
//!
//! The library builds a ZIP64-compliant archive incrementally and forward-only:
//! local file headers, DEFLATE-compressed payloads, data descriptors, a central
//! directory and the ZIP64 trailer records. Payload compression and CRC-32
//! computation are delegated to outside crates behind trusted wrappers; every
//! byte of archive structure is produced by verified code whose contracts pin
//! the exact output stream.
//!
//! The host environment (file enumeration, sinks, callbacks) stays outside:
//! the encoder is a state machine fed with plain values, and hands back the
//! chunks that are due on the sink.

pub mod bytes;
pub mod wasm_error;
pub mod header;
pub mod transform_writer;
pub mod checksum;
pub mod deflate;
pub mod scan;
pub mod speed;
pub mod archive;
