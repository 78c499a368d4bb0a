//! Decisions of the HDR path: which tags give the headroom, the colour
//! profile, the gain-map image, and the encoder settings.
use vstd::prelude::*;

use crate::error::ConvertError;
use crate::text::{has_prefix, starts_with};

verus! {

/// The tag whose presence marks an Apple HDR image.
pub const TAG_GAINMAP_VERSION: &'static str = "xmp:HDRGainMapVersion";

/// The tag that gives the headroom directly.
pub const TAG_GAINMAP_HEADROOM: &'static str = "xmp:HDRGainMapHeadroom";

/// The maker-note tag read as the first headroom marker.
pub const TAG_MAKER_HEADROOM: &'static str = "MakerNotes:HDRHeadroom";

/// The maker-note tag read as the second headroom marker.
pub const TAG_MAKER_GAIN: &'static str = "MakerNotes:HDRGain";

/// The tag that names the image's colour profile.
pub const TAG_PROFILE: &'static str = "ProfileDescription";

/// The colour profile that an HDR image must declare, as a prefix.
pub const DISPLAY_P3: &'static str = "Display P3";

/// The type of the auxiliary image that holds Apple's gain map.
pub const APPLE_GAINMAP_URN: &'static str = "urn:com:apple:photo:2020:aux:hdrgainmap";

/// Where the headroom of an image comes from.
#[derive(Debug)]
pub enum HeadroomSource {
    /// The image is not Apple HDR.
    NotHdr,
    /// The XMP headroom tag, as written.
    Xmp(String),
    /// The two maker-note markers, as written.
    MakerNotes { headroom: String, gain: String },
}

/// The next move in reading the headroom tags.
#[derive(Debug)]
pub enum HeadroomStep {
    /// Read this tag next.
    Read(&'static str),
    /// The tags read so far settle the source, or the failure.
    Done(Result<HeadroomSource, ConvertError>),
}

/// The tag read at position `i` of the sequence.
pub open spec fn headroom_tag(i: int) -> &'static str {
    if i == 0 {
        TAG_GAINMAP_VERSION
    } else if i == 1 {
        TAG_GAINMAP_HEADROOM
    } else if i == 2 {
        TAG_MAKER_HEADROOM
    } else {
        TAG_MAKER_GAIN
    }
}

/// The step that follows the answers `a` to the tags read so far, in order.
pub open spec fn headroom_decision(a: Seq<Option<String>>) -> HeadroomStep {
    if a.len() >= 1 && a[0] is None {
        HeadroomStep::Done(Ok(HeadroomSource::NotHdr))
    } else if a.len() >= 2 && a[1] is Some {
        HeadroomStep::Done(Ok(HeadroomSource::Xmp(a[1]->Some_0)))
    } else if a.len() >= 3 && a[2] is None {
        HeadroomStep::Done(Err(ConvertError::MissingMetadata(TAG_MAKER_HEADROOM)))
    } else if a.len() >= 4 && a[3] is None {
        HeadroomStep::Done(Err(ConvertError::MissingMetadata(TAG_MAKER_GAIN)))
    } else if a.len() >= 4 {
        HeadroomStep::Done(
            Ok(HeadroomSource::MakerNotes { headroom: a[2]->Some_0, gain: a[3]->Some_0 }),
        )
    } else {
        HeadroomStep::Read(headroom_tag(a.len() as int))
    }
}

/// Decides what to read next, or what the headroom tags say, given the
/// values of the tags read so far (in the order version, XMP headroom,
/// maker-note headroom, maker-note gain). An image without the version tag is
/// not HDR; the XMP headroom wins when present; else both maker notes are
/// needed.
pub fn headroom_step(answers: &Vec<Option<String>>) -> (r: HeadroomStep)
    ensures
        r == headroom_decision(answers@),
{
    let n = answers.len();
    if n == 0 {
        return HeadroomStep::Read(TAG_GAINMAP_VERSION);
    }
    if answers[0].is_none() {
        return HeadroomStep::Done(Ok(HeadroomSource::NotHdr));
    }
    if n == 1 {
        return HeadroomStep::Read(TAG_GAINMAP_HEADROOM);
    }
    if let Some(v) = &answers[1] {
        return HeadroomStep::Done(Ok(HeadroomSource::Xmp(v.clone())));
    }
    if n == 2 {
        return HeadroomStep::Read(TAG_MAKER_HEADROOM);
    }
    let headroom = match &answers[2] {
        Some(v) => v.clone(),
        None => return HeadroomStep::Done(Err(ConvertError::MissingMetadata(TAG_MAKER_HEADROOM))),
    };
    if n == 3 {
        return HeadroomStep::Read(TAG_MAKER_GAIN);
    }
    match &answers[3] {
        Some(gain) => HeadroomStep::Done(
            Ok(HeadroomSource::MakerNotes { headroom, gain: gain.clone() }),
        ),
        None => HeadroomStep::Done(Err(ConvertError::MissingMetadata(TAG_MAKER_GAIN))),
    }
}

/// A declared colour profile must be Display P3.
pub open spec fn profile_ok(profile: Option<String>) -> bool {
    match profile {
        Some(p) => has_prefix(p@, DISPLAY_P3@),
        None => true,
    }
}

/// Refuses an image whose declared colour profile is not Display P3.
pub fn check_profile(profile: &Option<String>) -> (r: Result<(), ConvertError>)
    ensures
        profile_ok(*profile) <==> r is Ok,
        r is Err ==> r matches Err(ConvertError::UnsupportedFormat),
{
    match profile {
        Some(p) => if starts_with(p.as_str(), DISPLAY_P3) {
            Ok(())
        } else {
            Err(ConvertError::UnsupportedFormat)
        },
        None => Ok(()),
    }
}

/// How the converted image is written.
#[derive(Debug, Clone, Copy, PartialEq, Eq, Structural)]
pub enum ImageOutput {
    /// The base JPEG alone.
    PlainJpeg,
    /// The base JPEG with a gain map, as Ultra HDR.
    UltraHdr,
}

/// Chooses the output once the headroom is known: Ultra HDR when the image
/// has a headroom, which needs a declared colour profile; else the plain
/// JPEG.
pub fn image_output(profile: &Option<String>, has_headroom: bool) -> (r: Result<
    ImageOutput,
    ConvertError,
>)
    ensures
        !has_headroom ==> r == Ok::<ImageOutput, ConvertError>(ImageOutput::PlainJpeg),
        has_headroom && profile is Some ==> r == Ok::<ImageOutput, ConvertError>(
            ImageOutput::UltraHdr,
        ),
        has_headroom && profile is None ==> r matches Err(ConvertError::UnsupportedFormat),
{
    if !has_headroom {
        Ok(ImageOutput::PlainJpeg)
    } else if profile.is_some() {
        Ok(ImageOutput::UltraHdr)
    } else {
        Err(ConvertError::UnsupportedFormat)
    }
}

/// The position of the first auxiliary image whose type is exactly Apple's
/// gain-map type.
pub fn find_gainmap(aux_types: &Vec<String>) -> (r: Result<usize, ConvertError>)
    ensures
        match r {
            Ok(i) => i < aux_types@.len() && aux_types@[i as int]@ == APPLE_GAINMAP_URN@
                && forall|k: int| 0 <= k < i ==> aux_types@[k]@ != APPLE_GAINMAP_URN@,
            Err(e) => e matches ConvertError::NoGainmap && forall|k: int|
                0 <= k < aux_types@.len() ==> aux_types@[k]@ != APPLE_GAINMAP_URN@,
        },
{
    let urn = APPLE_GAINMAP_URN.to_owned();
    let mut i: usize = 0;
    while i < aux_types.len()
        invariant
            urn@ == APPLE_GAINMAP_URN@,
            i <= aux_types@.len(),
            forall|k: int| 0 <= k < i ==> aux_types@[k]@ != APPLE_GAINMAP_URN@,
        decreases aux_types@.len() - i,
    {
        if aux_types[i] == urn {
            return Ok(i);
        }
        i = i + 1;
    }
    Err(ConvertError::NoGainmap)
}

/// `q` limited to the JPEG quality range [0, 100].
pub open spec fn clamped_quality(q: int) -> int {
    if q < 0 {
        0
    } else if q > 100 {
        100
    } else {
        q
    }
}

/// Limits a JPEG quality to [0, 100].
pub fn clamp_quality(q: i32) -> (r: i32)
    ensures
        r == clamped_quality(q as int),
{
    if q < 0 {
        0
    } else if q > 100 {
        100
    } else {
        q
    }
}

} // verus!
