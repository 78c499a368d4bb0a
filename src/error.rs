use vstd::prelude::*;

verus! {

/// Why a request was refused before any work was done.
#[derive(Debug, Clone, Copy, PartialEq, Eq, Structural)]
pub enum ValidationError {
    /// The image or the video does not exist or is not a regular file.
    MissingInput,
    /// The output's extension is not `jpg` or `jpeg`, in any case.
    BadOutputExtension,
    /// The output path names a directory.
    OutputIsDirectory,
    /// The output path has no parent, or its parent does not exist.
    OutputParentMissing,
    /// The output exists, is not the input image, and may not be overwritten.
    OutputExists,
}

/// The kinds of failure of a conversion.
#[derive(Debug)]
pub enum ConvertError {
    /// The request's paths are unusable.
    Validation(ValidationError),
    /// The image path has no extension to tell its format by.
    NoImageExtension,
    /// The image to convert is not a HEIC file.
    NotHeic,
    /// A tag that an earlier tag made necessary is absent; it holds the tag's name.
    MissingMetadata(&'static str),
    /// A numeric tag could not be read as a number; it holds the tag's name.
    Parse(&'static str),
    /// The image's layout or colour description is not one this library handles.
    UnsupportedFormat,
    /// The HEIC holds no Apple gain-map image.
    NoGainmap,
    /// A decoder failed.
    Decode,
    /// An encoder failed.
    Encode,
    /// The Ultra HDR muxer failed.
    Mux,
    /// A file or process operation failed; it holds the reason.
    Io(String),
    /// The EXIF tool exited with failure; it holds what it wrote to stderr.
    Tool(String),
    /// The video's stem cannot name a temporary file.
    BadVideoName,
    /// The temporary file for the transcoded video already exists.
    TempExists,
}

} // verus!
