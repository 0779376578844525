//! A streaming gzip codec whose framing layer is verified.
//!
//! The crate holds the gzip member format as resumable state machines: a header
//! parser, an encoder and a decoder. None of them reads from a source. Whoever
//! drives one asks the source for the bytes it has at hand, hands them over
//! with a call, takes from the source as many bytes as the call says it used,
//! and does what the call says next: call again, hand a number of bytes to the
//! caller, or fail. A source that would block is handed over as such, and
//! changes nothing.
//!
//! The DEFLATE engine (`miniz_oxide`) and the CRC-32 routine (`crc32fast`) are
//! outside crates, called through a few trusted functions in [`engine`] and
//! [`checksum`]. Everything around them is proved: the header grammar and the
//! parser that follows it across any cuts of its input ([`header`],
//! [`parser`]); the bytes a header is written as ([`compose`]); the transition
//! relations of the decoder and the encoder ([`decoder`], [`encoder`]); and
//! what follows from them ([`laws`]).

pub mod bytes;
pub mod checksum;
pub mod compose;
pub mod decoder;
pub mod drive;
pub mod encoder;
pub mod engine;
pub mod error;
pub mod header;
pub mod laws;
pub mod level;
pub mod parser;

pub use decoder::{GzDecoder, MultiGzDecoder};
pub use encoder::{gz_encoder, GzEncoder};
pub use error::{bad_header, corrupt, GzError};
pub use header::GzHeader;
pub use level::Compression;
