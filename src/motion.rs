//! Decisions of the motion-photo step: whether the video is appended, and
//! which file is.
use vstd::prelude::*;
use vstd::string::*;

use crate::error::ConvertError;
use crate::paths::{file_stem_of, path_file_stem, path_with_file_name, with_file_name};

verus! {

/// The tag that marks a file as a motion photo.
pub const TAG_MICRO_VIDEO: &'static str = "XMP-GCamera:MicroVideo";

/// The encoder that the audio of a video is converted with.
pub const AAC_ENCODER: &'static str = "aac";

/// The bit rate of converted audio: 128 × 1024 bits per second.
pub const AAC_BIT_RATE: i64 = 131072;

/// The suffix of the file that a video is converted into, beside the original.
pub const TRANSCODE_SUFFIX: &'static str = "-aac-converting.mp4";

/// The file already carries the motion-photo marker `MicroVideo=1`.
pub open spec fn motion_marker(micro_video: Option<String>) -> bool {
    micro_video matches Some(v) && v@ == "1"@
}

/// Audio that a motion photo can carry as it is.
pub open spec fn audio_passes(codec: Option<String>) -> bool {
    match codec {
        Some(c) => c@ == "aac"@ || c@ == "ac3"@,
        None => true,
    }
}

/// The file beside `video` that its converted copy is written to.
pub open spec fn transcode_path(video: Seq<char>) -> Option<Seq<char>> {
    match path_file_stem(video) {
        Some(stem) => Some(path_with_file_name(video, stem + TRANSCODE_SUFFIX@)),
        None => None,
    }
}

/// Whether the value of the `MicroVideo` tag marks a motion photo.
pub fn is_motion_photo(micro_video: &Option<String>) -> (r: bool)
    ensures
        r == motion_marker(*micro_video),
{
    match micro_video {
        Some(v) => *v == "1".to_owned(),
        None => false,
    }
}

/// Whether a video whose audio codec is `codec` (`None`: no audio) must have
/// its audio converted before it is appended: all but AAC and AC-3 must.
pub fn needs_transcode(codec: &Option<String>) -> (r: bool)
    ensures
        r == !audio_passes(*codec),
{
    match codec {
        Some(c) => !(*c == "aac".to_owned() || *c == "ac3".to_owned()),
        None => false,
    }
}

/// The file `<stem>-aac-converting.mp4` beside the video, which its converted
/// copy is written to.
pub fn transcode_target(video: &str) -> (r: Result<String, ConvertError>)
    ensures
        match transcode_path(video@) {
            Some(t) => r matches Ok(s) && s@ == t,
            None => r matches Err(ConvertError::BadVideoName),
        },
{
    match file_stem_of(video) {
        Some(stem) => {
            let mut name = stem;
            name.append(TRANSCODE_SUFFIX);
            Ok(with_file_name(video, name.as_str()))
        },
        None => Err(ConvertError::BadVideoName),
    }
}

/// A video to re-write with its audio converted and its video stream copied.
pub struct VideoAudioEncodeRequest {
    pub input: String,
    pub output: String,
    pub bit_rate: i64,
    pub encoder: &'static str,
}

impl VideoAudioEncodeRequest {
    /// The conversion of the audio of `input` into AAC at 128 × 1024 bit/s, written
    /// to `output`.
    pub fn aac(input: String, output: String) -> (r: VideoAudioEncodeRequest)
        ensures
            r.input == input,
            r.output == output,
            r.encoder@ == AAC_ENCODER@,
            r.bit_rate == AAC_BIT_RATE,
    {
        VideoAudioEncodeRequest { input, output, bit_rate: AAC_BIT_RATE, encoder: AAC_ENCODER }
    }
}

} // verus!
