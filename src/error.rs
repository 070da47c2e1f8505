use vstd::prelude::*;

verus! {

/// Every way in which the date repair of an export can fail. Failures that
/// come from outside the library carry the message of the failing operation.
#[derive(Debug, Clone, PartialEq, Eq)]
pub enum Error {
    /// A record document is missing or malformed.
    ParseError(String),
    /// A file or directory could not be read or written.
    IoError(String),
    /// The resolved time has no calendar date.
    TimestampOutOfRange,
    /// The image's container cannot hold the capture-date tag.
    UnsupportedFormat(String),
    /// The tag's value could not be encoded.
    TagWriteError(String),
    /// The photo record holds no EXIF snapshot to take the time from.
    MissingExifSnapshot,
}

impl Error {
    /// A human-readable description of the failure: the message of the
    /// failing operation where the error carries one, unchanged.
    pub fn message(&self) -> (r: String)
        ensures
            r@ == match self {
                Error::ParseError(d) => d@,
                Error::IoError(d) => d@,
                Error::TimestampOutOfRange => "timestamp has no calendar date"@,
                Error::UnsupportedFormat(d) => d@,
                Error::TagWriteError(d) => d@,
                Error::MissingExifSnapshot => "photo record has no EXIF snapshot"@,
            },
    {
        match self {
            Error::ParseError(d) => d.clone(),
            Error::IoError(d) => d.clone(),
            Error::TimestampOutOfRange => String::from_str("timestamp has no calendar date"),
            Error::UnsupportedFormat(d) => d.clone(),
            Error::TagWriteError(d) => d.clone(),
            Error::MissingExifSnapshot => String::from_str("photo record has no EXIF snapshot"),
        }
    }
}

/// The kind of an I/O failure reported while an image's tags were read or
/// written, as the image library classifies it.
#[derive(Debug, Clone, Copy, PartialEq, Eq, Structural)]
pub enum IoKind {
    /// The library does not handle this type of file.
    Unsupported,
    /// The file's contents could not be decoded or encoded.
    InvalidData,
    /// An argument, such as a tag value, could not be encoded.
    InvalidInput,
    /// A failure that the library reports without a more precise kind.
    Other,
    /// A failure that comes from the file system.
    System,
}

/// The error of a failed tag write on an image: a file that is not there is
/// an I/O failure; a file type the image library does not handle, or that it
/// cannot tell because the name has no extension, is an unsupported format;
/// what the library could not decode or encode is a tag-write failure; the
/// rest comes from the file system.
pub open spec fn write_error_spec(exists: bool, has_extension: bool, kind: IoKind, detail: String) -> Error {
    if !exists {
        Error::IoError(detail)
    } else if kind == IoKind::Unsupported || !has_extension {
        Error::UnsupportedFormat(detail)
    } else if kind == IoKind::System {
        Error::IoError(detail)
    } else {
        Error::TagWriteError(detail)
    }
}

/// Classifies a failure of reading or writing an image's tags; `exists` and
/// `has_extension` are what the caller saw of the image's path.
pub fn write_error(exists: bool, has_extension: bool, kind: IoKind, detail: String) -> (r: Error)
    ensures
        r == write_error_spec(exists, has_extension, kind, detail),
{
    if !exists {
        Error::IoError(detail)
    } else if matches!(kind, IoKind::Unsupported) || !has_extension {
        Error::UnsupportedFormat(detail)
    } else if matches!(kind, IoKind::System) {
        Error::IoError(detail)
    } else {
        Error::TagWriteError(detail)
    }
}

} // verus!
