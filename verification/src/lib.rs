//! Little-endian integer codec extensions for byte channels.
//!
//! The crate provides a verified little-endian encoding and decoding core,
//! capability traits for sequential byte sinks and sources, extension traits
//! that let any such channel read and write fixed-width unsigned integers in
//! little-endian order, and a forwarding shim for an archive-entry
//! configuration builder.

pub mod channel;
pub mod ext;
pub mod le;
pub mod options;
