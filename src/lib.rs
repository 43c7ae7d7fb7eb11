use vstd::prelude::*;

use crate::sniff::infer_from_bytes;
use crate::sniff::mime_of;
use crate::sniff::verdict;

pub mod sniff;
pub mod gzip;
pub mod zip;

verus! {

/// A value of `std::io::Error`, carried through unread.
#[verifier::external_type_specification]
#[verifier::external_body]
pub struct ExIoError(std::io::Error);

/// A value of async_zip's `ZipError`, carried through unread.
#[verifier::external_type_specification]
#[verifier::external_body]
pub struct ExZipError(async_zip::error::ZipError);

/// A value of `std::path::PathBuf`, carried through unread.
#[verifier::external_type_specification]
#[verifier::external_body]
pub struct ExPathBuf(std::path::PathBuf);

/// A value of `bytes::Bytes`; its contents are `bytes_view`.
#[verifier::external_type_specification]
#[verifier::external_body]
pub struct ExBytes(bytes::Bytes);

/// The byte sequence that a `Bytes` buffer holds.
pub uninterp spec fn bytes_view(b: bytes::Bytes) -> Seq<u8>;

/// Relies on bytes::Bytes::copy_from_slice: the new buffer holds a copy of
/// the slice, byte for byte.
#[verifier::external_body]
fn copy_bytes(data: &[u8]) -> (r: bytes::Bytes)
    ensures
        bytes_view(r) == data@,
{
    bytes::Bytes::copy_from_slice(data)
}

/// The container formats that extraction knows how to handle.
#[derive(PartialEq, Eq, Structural, Clone, Copy, Debug)]
pub enum Kind {
    TAR,
    ZIP,
    GZIP,
}

/// Where the archive's bytes are: a file not read yet, or a loaded buffer.
pub enum Content {
    Path(std::path::PathBuf),
    Bytes(bytes::Bytes),
}

/// An archive whose format has been recognised from its content.
pub struct Archive {
    kind: Kind,
    content: Content,
}

impl Archive {
    /// The format recognised at construction.
    pub closed spec fn spec_kind(&self) -> Kind {
        self.kind
    }

    /// The content the archive was built over.
    pub closed spec fn spec_content(&self) -> Content {
        self.content
    }

    /// Builds an archive over a file, recognised from `prefix`, the leading
    /// bytes of that file (at most `SNIFF_LEN` of them are needed). The file
    /// itself is read only when it is extracted.
    pub fn from_path(path: std::path::PathBuf, prefix: &[u8]) -> (r: Result<Archive, Error>)
        ensures
            match r {
                Ok(a) => verdict(mime_of(prefix@), Ok(a.spec_kind()))
                    && a.spec_content() == Content::Path(path),
                Err(e) => verdict(mime_of(prefix@), Err(e)),
            },
    {
        match infer_from_bytes(prefix) {
            Ok(kind) => Ok(Archive { kind, content: Content::Path(path) }),
            Err(e) => Err(e),
        }
    }

    /// Builds an archive over a copy of `data`, recognised from its content.
    pub fn from_bytes(data: &[u8]) -> (r: Result<Archive, Error>)
        ensures
            match r {
                Ok(a) => {
                    &&& verdict(mime_of(data@), Ok(a.spec_kind()))
                    &&& a.spec_content() matches Content::Bytes(b)
                    &&& bytes_view(b) == data@
                },
                Err(e) => verdict(mime_of(data@), Err(e)),
            },
    {
        match infer_from_bytes(data) {
            Ok(kind) => Ok(Archive { kind, content: Content::Bytes(copy_bytes(data)) }),
            Err(e) => Err(e),
        }
    }

    /// The recognised format.
    pub fn kind(&self) -> (r: Kind)
        ensures
            r == self.spec_kind(),
    {
        self.kind
    }

    /// Gives up the archive for extraction: its format and its content.
    pub fn into_parts(self) -> (r: (Kind, Content))
        ensures
            r.0 == self.spec_kind(),
            r.1 == self.spec_content(),
    {
        (self.kind, self.content)
    }
}

/// Failures of the underlying readers and decoders.
#[derive(Debug)]
pub enum IOError {
    StdIO(std::io::Error),
    ZipError(async_zip::error::ZipError),
}

/// Relies on the `Display` of `std::io::Error`: its text, which may come from
/// the operating system.
#[verifier::external_body]
fn io_error_text(err: &std::io::Error) -> (r: String) {
    err.to_string()
}

/// Relies on the `Display` of async_zip's `ZipError`: its text.
#[verifier::external_body]
fn zip_error_text(err: &async_zip::error::ZipError) -> (r: String) {
    err.to_string()
}

/// The fixed words that open the message of an `IOError`.
pub open spec fn io_error_lead(e: IOError) -> Seq<char> {
    match e {
        IOError::StdIO(_) => "Error reading the archive: "@,
        IOError::ZipError(_) => "Error reading ZIP archive: "@,
    }
}

impl IOError {
    /// The one-line description of this failure, given the text of its inner
    /// error: the fixed words for the reader that failed, then `cause`.
    pub fn message_with(&self, cause: &str) -> (r: String)
        ensures
            r@ == io_error_lead(*self) + cause@,
    {
        let lead = match self {
            IOError::StdIO(_) => String::from_str("Error reading the archive: "),
            IOError::ZipError(_) => String::from_str("Error reading ZIP archive: "),
        };
        lead.concat(cause)
    }

    /// A one-line description: which reader failed, then the text of the
    /// inner error.
    pub fn message(&self) -> (r: String)
        ensures
            exists|cause: Seq<char>| r@ == io_error_lead(*self) + cause,
    {
        let cause = match self {
            IOError::StdIO(err) => io_error_text(err),
            IOError::ZipError(err) => zip_error_text(err),
        };
        self.message_with(cause.as_str())
    }
}

/// Everything that building or extracting an archive can fail with.
#[derive(Debug)]
pub enum Error {
    IOError(IOError),
    InvalidFormat(Option<String>),
    Unknown(String),
}

impl From<std::io::Error> for Error {
    fn from(err: std::io::Error) -> (r: Error)
        ensures
            r == Error::IOError(IOError::StdIO(err)),
    {
        Error::IOError(IOError::StdIO(err))
    }
}

impl vstd::std_specs::convert::FromSpecImpl<std::io::Error> for Error {
    open spec fn obeys_from_spec() -> bool {
        true
    }

    open spec fn from_spec(err: std::io::Error) -> Error {
        Error::IOError(IOError::StdIO(err))
    }
}

impl From<async_zip::error::ZipError> for Error {
    fn from(err: async_zip::error::ZipError) -> (r: Error)
        ensures
            r == Error::IOError(IOError::ZipError(err)),
    {
        Error::IOError(IOError::ZipError(err))
    }
}

impl vstd::std_specs::convert::FromSpecImpl<async_zip::error::ZipError> for Error {
    open spec fn obeys_from_spec() -> bool {
        true
    }

    open spec fn from_spec(err: async_zip::error::ZipError) -> Error {
        Error::IOError(IOError::ZipError(err))
    }
}

} // verus!
