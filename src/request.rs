//! A conversion job and the checks made on it before any work.
use vstd::prelude::*;
use vstd::string::*;

use crate::error::{ConvertError, ValidationError};
use crate::exiftool::ExifTool;
use crate::paths::{extension_of, path_extension};
use crate::text::{eq_ignore_ascii_case, str_eq_ignore_ascii_case};

verus! {

/// One conversion of a still image and its video into a motion photo.
pub struct ConvertRequest {
    pub image_path: String,
    pub video_path: String,
    pub output_path: String,
    /// The EXIF tool to run, if not the one on the search path.
    pub exiftool_path: Option<String>,
    pub overwrite_existing: bool,
    /// JPEG quality of the base image, in [0, 100].
    pub image_quality: i32,
    /// JPEG quality of the gain map, in [0, 100].
    pub gainmap_quality: i32,
}

/// What the file system says of a request's paths, gathered before it is
/// validated.
pub struct PathFacts {
    pub image_exists: bool,
    pub image_is_file: bool,
    pub video_exists: bool,
    pub video_is_file: bool,
    pub output_exists: bool,
    pub output_is_dir: bool,
    /// Whether the output's parent directory exists; `None` when the output
    /// path has no parent.
    pub output_parent_exists: Option<bool>,
}

/// `ext` names a JPEG file, in any case.
pub open spec fn is_jpeg_extension(ext: Seq<char>) -> bool {
    eq_ignore_ascii_case(ext, "jpg"@) || eq_ignore_ascii_case(ext, "jpeg"@)
}

impl ConvertRequest {
    /// The image and the output are one file, by their paths compared without
    /// ASCII case.
    pub open spec fn same_file(&self) -> bool {
        eq_ignore_ascii_case(self.image_path@, self.output_path@)
    }

    /// The outcome of validation: the first check that fails, in order.
    pub open spec fn validation(&self, facts: PathFacts) -> Result<(), ValidationError> {
        if !facts.image_exists || !facts.image_is_file || !facts.video_exists
            || !facts.video_is_file {
            Err(ValidationError::MissingInput)
        } else if facts.output_is_dir {
            Err(ValidationError::OutputIsDirectory)
        } else if !(path_extension(self.output_path@) matches Some(e) && is_jpeg_extension(e)) {
            Err(ValidationError::BadOutputExtension)
        } else if facts.output_exists && !self.same_file() && !self.overwrite_existing {
            Err(ValidationError::OutputExists)
        } else if facts.output_parent_exists != Some(true) {
            Err(ValidationError::OutputParentMissing)
        } else {
            Ok(())
        }
    }

    /// Whether the image is HEIC, by its extension; an error if it has none.
    pub open spec fn input_heic(&self) -> Result<bool, ()> {
        match path_extension(self.image_path@) {
            Some(e) => Ok(eq_ignore_ascii_case(e, "heic"@)),
            None => Err(()),
        }
    }

    /// The image and the output are one file, by their paths compared without
    /// ASCII case: converting in place.
    pub fn io_same_file(&self) -> (r: bool)
        ensures
            r == self.same_file(),
    {
        str_eq_ignore_ascii_case(self.image_path.as_str(), self.output_path.as_str())
    }

    /// Whether the image is HEIC, by its extension in any case.
    pub fn is_input_heic(&self) -> (r: Result<bool, ConvertError>)
        ensures
            match self.input_heic() {
                Ok(b) => r == Ok::<bool, ConvertError>(b),
                Err(_) => r matches Err(ConvertError::NoImageExtension),
            },
    {
        match extension_of(self.image_path.as_str()) {
            Some(e) => Ok(str_eq_ignore_ascii_case(e.as_str(), "heic")),
            None => Err(ConvertError::NoImageExtension),
        }
    }

    /// The EXIF tool that this request runs.
    pub fn exif_tool(&self) -> (r: ExifTool)
        ensures
            r.path == self.exiftool_path,
    {
        match &self.exiftool_path {
            Some(p) => ExifTool::with_path(p.clone()),
            None => ExifTool::new(),
        }
    }

    /// The originals to remove once a conversion succeeded: the image, unless
    /// it was converted in place, then the video.
    pub fn originals_to_delete(&self) -> (r: Vec<String>)
        ensures
            self.same_file() ==> r@ == seq![self.video_path],
            !self.same_file() ==> r@ == seq![self.image_path, self.video_path],
    {
        let mut r: Vec<String> = Vec::new();
        if !self.io_same_file() {
            r.push(self.image_path.clone());
        }
        r.push(self.video_path.clone());
        r
    }

    /// Checks the request against the file system's facts: the inputs are
    /// files, the output is a JPEG path in an existing directory, and an
    /// existing output is replaced only in place or when allowed.
    pub fn check_valid(&self, facts: &PathFacts) -> (r: Result<(), ValidationError>)
        ensures
            r == self.validation(*facts),
    {
        if !facts.image_exists || !facts.image_is_file || !facts.video_exists
            || !facts.video_is_file {
            return Err(ValidationError::MissingInput);
        }
        if facts.output_is_dir {
            return Err(ValidationError::OutputIsDirectory);
        }
        let jpeg = match extension_of(self.output_path.as_str()) {
            Some(e) => str_eq_ignore_ascii_case(e.as_str(), "jpg") || str_eq_ignore_ascii_case(
                e.as_str(),
                "jpeg",
            ),
            None => false,
        };
        if !jpeg {
            return Err(ValidationError::BadOutputExtension);
        }
        if facts.output_exists && !self.io_same_file() && !self.overwrite_existing {
            return Err(ValidationError::OutputExists);
        }
        match facts.output_parent_exists {
            Some(true) => Ok(()),
            _ => Err(ValidationError::OutputParentMissing),
        }
    }
}

/// Converting in place is never refused because the output exists, whether
/// or not overwriting is allowed.
pub proof fn lemma_in_place_not_refused(req: ConvertRequest, facts: PathFacts)
    requires
        req.same_file(),
    ensures
        req.validation(facts) != Err::<(), ValidationError>(ValidationError::OutputExists),
{
}

} // verus!
