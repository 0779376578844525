//! The errors that the codec reports.

use vstd::prelude::*;

verus! {

/// The class of an error, as a caller that maps it to an I/O error needs it.
#[derive(Clone, Copy, Debug, PartialEq, Eq, Structural)]
pub enum ErrorKind {
    /// The stream is not what the format allows.
    InvalidInput,
    /// The source ended while framing bytes were still due.
    UnexpectedEof,
    /// The source has nothing to give right now; nothing was lost.
    WouldBlock,
    /// Any other failure of the source.
    Other,
}

/// What can go wrong while a gzip stream is read or written.
#[derive(Clone, Copy, Debug, PartialEq, Eq, Structural)]
pub enum GzError {
    /// Wrong magic bytes or a compression method other than DEFLATE.
    BadHeader,
    /// A stored checksum or length does not match what was computed.
    Corrupt,
    /// The DEFLATE engine rejected the compressed data.
    Deflate,
    /// The source ended inside a header or a trailer.
    UnexpectedEof,
    /// The source would block; the same call can be made again later.
    WouldBlock,
    /// The source failed in some other way.
    Source,
}

impl GzError {
    /// The class this error falls into.
    pub open spec fn kind_spec(self) -> ErrorKind {
        match self {
            GzError::BadHeader | GzError::Corrupt | GzError::Deflate => ErrorKind::InvalidInput,
            GzError::UnexpectedEof => ErrorKind::UnexpectedEof,
            GzError::WouldBlock => ErrorKind::WouldBlock,
            GzError::Source => ErrorKind::Other,
        }
    }

    /// The text that goes with this error.
    pub open spec fn message_spec(self) -> Seq<char> {
        match self {
            GzError::BadHeader => "invalid gzip header"@,
            GzError::Corrupt => "corrupt gzip stream does not have a matching checksum"@,
            GzError::Deflate => "corrupt deflate stream"@,
            GzError::UnexpectedEof => "unexpected end of file"@,
            GzError::WouldBlock => "operation would block"@,
            GzError::Source => "the underlying reader failed"@,
        }
    }

    /// Whether a decoder that meets this error stays usable: only a source that
    /// would block leaves the stream intact.
    pub open spec fn is_fatal(self) -> bool {
        self != GzError::WouldBlock
    }

    /// The class this error falls into.
    pub fn kind(&self) -> (k: ErrorKind)
        ensures
            k == self.kind_spec(),
    {
        match self {
            GzError::BadHeader => ErrorKind::InvalidInput,
            GzError::Corrupt => ErrorKind::InvalidInput,
            GzError::Deflate => ErrorKind::InvalidInput,
            GzError::UnexpectedEof => ErrorKind::UnexpectedEof,
            GzError::WouldBlock => ErrorKind::WouldBlock,
            GzError::Source => ErrorKind::Other,
        }
    }

    /// The text that goes with this error.
    pub fn message(&self) -> (m: &'static str)
        ensures
            m@ == self.message_spec(),
    {
        match self {
            GzError::BadHeader => "invalid gzip header",
            GzError::Corrupt => "corrupt gzip stream does not have a matching checksum",
            GzError::Deflate => "corrupt deflate stream",
            GzError::UnexpectedEof => "unexpected end of file",
            GzError::WouldBlock => "operation would block",
            GzError::Source => "the underlying reader failed",
        }
    }
}

/// The error for a checksum or length that does not match.
pub fn corrupt() -> (e: GzError)
    ensures
        e == GzError::Corrupt,
        e.kind_spec() == ErrorKind::InvalidInput,
        e.message_spec() == "corrupt gzip stream does not have a matching checksum"@,
{
    GzError::Corrupt
}

/// The error for a header that does not start a gzip member.
pub fn bad_header() -> (e: GzError)
    ensures
        e == GzError::BadHeader,
        e.kind_spec() == ErrorKind::InvalidInput,
        e.message_spec() == "invalid gzip header"@,
{
    GzError::BadHeader
}

} // verus!
