//! Converts Apple Live Photos (a HEIC or JPEG still and its video) into
//! motion-photo JPEGs: an Ultra HDR image with the video appended and tagged.
//!
//! The library holds the decisions and the byte layouts of a conversion; the
//! file system, the EXIF tool process and the image and video codecs are
//! driven by its caller, which hands the results back.

pub mod audio;
pub mod error;
pub mod exiftool;
pub mod guard;
pub mod hdr;
pub mod heic;
pub mod motion;
pub mod paths;
pub mod pipeline;
pub mod planes;
pub mod request;
pub mod text;
