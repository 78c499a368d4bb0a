//! The conversion of a HEIC image into a JPEG: the base image re-encoded, and
//! for an Apple HDR image its gain map re-encoded and muxed as Ultra HDR. The
//! decoding, encoding and muxing are done by the caller; this module orders
//! them and computes what is handed from one to the next.
use vstd::prelude::*;

use crate::error::ConvertError;
use crate::hdr::{
    check_profile,
    clamp_quality,
    clamped_quality,
    find_gainmap,
    headroom_decision,
    headroom_step,
    image_output,
    profile_ok,
    HeadroomSource,
    HeadroomStep,
    ImageOutput,
    APPLE_GAINMAP_URN,
    TAG_GAINMAP_HEADROOM,
    TAG_PROFILE,
};
use crate::planes::{
    mapped,
    pack_yuv420,
    remap_gainmap,
    yuv420_buffer,
    yuv420_layout_ok,
    RawPlane,
};
use crate::request::ConvertRequest;

verus! {

/// The primary image as the decoder gave it.
pub struct DecodedImage {
    pub width: u32,
    pub height: u32,
    /// The decoder reports the colour space YCbCr with 4:2:0 chroma.
    pub ycbcr420: bool,
    /// Bits of each luma sample, as the decoder reports them.
    pub luma_bits: Option<u8>,
    pub y: Option<RawPlane>,
    pub cb: Option<RawPlane>,
    pub cr: Option<RawPlane>,
}

/// The primary image is 8-bit YCbCr 4:2:0 with planes of the expected sizes.
pub open spec fn decoded_ok(img: DecodedImage) -> bool {
    &&& img.ycbcr420
    &&& img.luma_bits == Some(8u8)
    &&& img.y is Some && img.cb is Some && img.cr is Some
    &&& yuv420_layout_ok(
        img.width,
        img.height,
        img.y->Some_0,
        img.cb->Some_0,
        img.cr->Some_0,
    )
}

/// Where a HEIC conversion stands: the work it waits on.
#[derive(Debug, Clone, Copy, PartialEq, Eq, Structural)]
pub enum HeicStage {
    /// The colour profile tag.
    ReadProfile,
    /// The decoded primary image.
    DecodePrimary,
    /// The primary image encoded as JPEG.
    EncodePrimary,
    /// The next headroom tag.
    ReadHeadroom,
    /// The gain-map table for the headroom.
    ComputeHeadroom,
    /// The types of the auxiliary images.
    ListAuxiliary,
    /// The luma plane of the gain-map image.
    DecodeGainmap,
    /// The gain map encoded as JPEG.
    EncodeGainmap,
    /// The Ultra HDR stream.
    Mux,
    /// The output written.
    WriteOutput,
    /// The tags copied onto the output.
    CopyMeta,
    /// Nothing: the conversion is over.
    Finished,
}

/// The work to do next.
#[derive(Debug)]
pub enum HeicAction {
    /// Read this tag of the image.
    ReadTag(&'static str),
    /// Decode the primary image.
    DecodePrimary,
    /// Encode planar 4:2:0 samples as a JPEG.
    EncodeYuv { pixels: Vec<u8>, width: u32, height: u32, quality: i32 },
    /// Compute the headroom from its source, and the table that maps Apple's
    /// gain-map samples to Ultra HDR ones at that headroom.
    ComputeHeadroom(HeadroomSource),
    /// List the types of the auxiliary images.
    ListAuxiliary,
    /// Decode the auxiliary image at this position.
    DecodeAuxiliary(usize),
    /// Encode grayscale samples as a JPEG.
    EncodeGray { pixels: Vec<u8>, width: u32, height: u32, quality: i32 },
    /// Mux the base JPEG, which the conversion holds, with this gain-map JPEG.
    Mux { gainmap: Vec<u8>, base_quality: i32, gainmap_quality: i32 },
    /// Write the base JPEG, which the conversion holds, to the output.
    WriteBase,
    /// Write these bytes to the output.
    WriteOutput(Vec<u8>),
    /// Copy the image's tags onto the output.
    CopyMeta,
    /// Report the outcome.
    Finish,
}

/// What the last piece of work gave.
pub enum HeicEvent {
    Value(Result<Option<String>, ConvertError>),
    Decoded(Result<DecodedImage, ConvertError>),
    Bytes(Result<Vec<u8>, ConvertError>),
    Table(Result<[u8; 256], ConvertError>),
    Types(Result<Vec<String>, ConvertError>),
    Plane(Result<Option<RawPlane>, ConvertError>),
    Completed(Result<(), ConvertError>),
    /// The XMP headroom could not be read as a number.
    XmpUnparsable,
}

/// The event is the kind that the stage waits on.
pub open spec fn heic_expects(s: HeicStage, e: HeicEvent) -> bool {
    match s {
        HeicStage::ReadProfile | HeicStage::ReadHeadroom => e is Value,
        HeicStage::DecodePrimary => e is Decoded,
        HeicStage::EncodePrimary | HeicStage::EncodeGainmap | HeicStage::Mux => e is Bytes,
        HeicStage::ComputeHeadroom => e is Table || e is XmpUnparsable,
        HeicStage::ListAuxiliary => e is Types,
        HeicStage::DecodeGainmap => e is Plane,
        HeicStage::WriteOutput | HeicStage::CopyMeta => e is Completed,
        HeicStage::Finished => false,
    }
}

/// The error that the event reports, if any.
pub open spec fn heic_event_error(e: HeicEvent) -> Option<ConvertError> {
    match e {
        HeicEvent::Value(Err(x)) => Some(x),
        HeicEvent::Decoded(Err(x)) => Some(x),
        HeicEvent::Bytes(Err(x)) => Some(x),
        HeicEvent::Table(Err(x)) => Some(x),
        HeicEvent::Types(Err(x)) => Some(x),
        HeicEvent::Plane(Err(x)) => Some(x),
        HeicEvent::Completed(Err(x)) => Some(x),
        _ => None,
    }
}

/// One HEIC conversion under way.
pub struct HeicConversion {
    pub stage: HeicStage,
    /// The image's colour profile, once read.
    pub profile: Option<String>,
    /// The values of the headroom tags read so far.
    pub answers: Vec<Option<String>>,
    /// The base JPEG, once encoded.
    pub base: Vec<u8>,
    /// The gain-map table, once computed.
    pub table: [u8; 256],
    /// The output file has been written.
    pub output_written: bool,
    /// How the conversion ended, once it has.
    pub outcome: Option<Result<(), ConvertError>>,
}

/// The headroom tags read so far settled on the XMP headroom.
pub open spec fn xmp_source(a: Seq<Option<String>>) -> bool {
    a.len() == 2 && a[0] is Some && a[1] is Some
}

/// The base JPEG after event `e`: set once, when the primary is encoded.
pub open spec fn next_base(c: HeicConversion, e: HeicEvent) -> Vec<u8> {
    match e {
        HeicEvent::Bytes(Ok(b)) => if c.stage == HeicStage::EncodePrimary {
            b
        } else {
            c.base
        },
        _ => c.base,
    }
}

/// The colour profile after event `e`: set once, when read and accepted.
pub open spec fn next_profile(c: HeicConversion, e: HeicEvent) -> Option<String> {
    match e {
        HeicEvent::Value(Ok(p)) => if c.stage == HeicStage::ReadProfile && profile_ok(p) {
            p
        } else {
            c.profile
        },
        _ => c.profile,
    }
}

/// The gain-map table after event `e`: set once, when computed.
pub open spec fn next_table(c: HeicConversion, e: HeicEvent) -> [u8; 256] {
    match e {
        HeicEvent::Table(Ok(t)) => t,
        _ => c.table,
    }
}

/// The headroom tag values after event `e`. An XMP headroom that is not a
/// number counts as absent.
pub open spec fn next_answers(c: HeicConversion, e: HeicEvent) -> Seq<Option<String>> {
    match e {
        HeicEvent::Bytes(Ok(_)) => if c.stage == HeicStage::EncodePrimary {
            Seq::empty()
        } else {
            c.answers@
        },
        HeicEvent::Value(Ok(v)) => if c.stage == HeicStage::ReadHeadroom {
            c.answers@.push(v)
        } else {
            c.answers@
        },
        HeicEvent::XmpUnparsable => if xmp_source(c.answers@) {
            c.answers@.update(1, None)
        } else {
            c.answers@
        },
        _ => c.answers@,
    }
}

/// The conversion ended with error `x`.
pub open spec fn ends_with(c: HeicConversion, r: HeicAction, x: ConvertError) -> bool {
    c.stage == HeicStage::Finished && c.outcome == Some(Err::<(), ConvertError>(x)) && r is Finish
}

/// After the headroom tags `a` were read, the conversion moves on as they say.
pub open spec fn after_headroom(c: HeicConversion, r: HeicAction, a: Seq<Option<String>>) -> bool {
    match headroom_decision(a) {
        HeadroomStep::Read(t) => c.stage == HeicStage::ReadHeadroom && r == HeicAction::ReadTag(t),
        HeadroomStep::Done(Err(x)) => ends_with(c, r, x),
        HeadroomStep::Done(Ok(HeadroomSource::NotHdr)) => c.stage == HeicStage::WriteOutput
            && r is WriteBase,
        HeadroomStep::Done(Ok(src)) => if c.profile is Some {
            c.stage == HeicStage::ComputeHeadroom && r == HeicAction::ComputeHeadroom(src)
        } else {
            ends_with(c, r, ConvertError::UnsupportedFormat)
        },
    }
}

/// The first auxiliary image of Apple's gain-map type.
pub open spec fn first_gainmap(types: Seq<String>, i: int) -> bool {
    0 <= i < types.len() && types[i]@ == APPLE_GAINMAP_URN@ && forall|k: int|
        0 <= k < i ==> types[k]@ != APPLE_GAINMAP_URN@
}

impl HeicConversion {
    fn fail(&mut self, x: ConvertError) -> (r: HeicAction)
        ensures
            ends_with(*final(self), r, x),
            final(self).profile == old(self).profile,
            final(self).answers == old(self).answers,
            final(self).base == old(self).base,
            final(self).table == old(self).table,
            final(self).output_written == old(self).output_written,
    {
        self.stage = HeicStage::Finished;
        self.outcome = Some(Err(x));
        HeicAction::Finish
    }

    /// Takes the result of the work that the stage waited on, and returns the
    /// work to do next. A failed piece of work ends the conversion with its
    /// error. The colour profile must be Display P3 when declared; the
    /// primary image must be 8-bit YCbCr 4:2:0, and is handed to the encoder
    /// packed with `pack_yuv420`. A non-HDR image is written as the base JPEG;
    /// an HDR one needs a declared profile and Apple's gain map, which is
    /// remapped through the table and muxed with the base. An XMP headroom
    /// that is not a number counts as absent, and the maker notes are read.
    pub fn step(&mut self, req: &ConvertRequest, e: HeicEvent) -> (r: HeicAction)
        requires
            heic_expects(old(self).stage, e),
            old(self).stage != HeicStage::Finished ==> old(self).outcome is None,
        ensures
            final(self).stage != HeicStage::Finished ==> final(self).outcome is None,
            final(self).base == next_base(*old(self), e),
            final(self).profile == next_profile(*old(self), e),
            final(self).table == next_table(*old(self), e),
            heic_event_error(e) is None ==> final(self).answers@ == next_answers(*old(self), e),
            final(self).output_written == (old(self).output_written || (old(self).stage
                == HeicStage::WriteOutput && e is Completed && heic_event_error(e) is None)),
            heic_event_error(e) matches Some(x) ==> ends_with(*final(self), r, x),
            heic_event_error(e) is None ==> match (old(self).stage, e) {
                (HeicStage::ReadProfile, HeicEvent::Value(Ok(p))) => if profile_ok(p) {
                    final(self).stage == HeicStage::DecodePrimary && final(self).profile == p
                        && r is DecodePrimary
                } else {
                    ends_with(*final(self), r, ConvertError::UnsupportedFormat)
                },
                (HeicStage::DecodePrimary, HeicEvent::Decoded(Ok(img))) => if decoded_ok(img) {
                    &&& final(self).stage == HeicStage::EncodePrimary
                    &&& r matches HeicAction::EncodeYuv { pixels, width, height, quality }
                    &&& pixels@ == yuv420_buffer(
                        img.width,
                        img.height,
                        img.y->Some_0,
                        img.cb->Some_0,
                        img.cr->Some_0,
                    )
                    &&& width == img.width && height == img.height
                    &&& quality == clamped_quality(req.image_quality as int)
                } else {
                    ends_with(*final(self), r, ConvertError::UnsupportedFormat)
                },
                (HeicStage::EncodePrimary, HeicEvent::Bytes(Ok(b))) => {
                    &&& final(self).base == b
                    &&& final(self).answers@ == Seq::<Option<String>>::empty()
                    &&& final(self).profile == old(self).profile
                    &&& after_headroom(*final(self), r, Seq::empty())
                },
                (HeicStage::ReadHeadroom, HeicEvent::Value(Ok(v))) => {
                    &&& final(self).answers@ == old(self).answers@.push(v)
                    &&& final(self).profile == old(self).profile
                    &&& after_headroom(*final(self), r, final(self).answers@)
                },
                (HeicStage::ComputeHeadroom, HeicEvent::XmpUnparsable) => if xmp_source(
                    old(self).answers@,
                ) {
                    after_headroom(*final(self), r, final(self).answers@)
                } else {
                    ends_with(*final(self), r, ConvertError::Parse(TAG_GAINMAP_HEADROOM))
                },
                (HeicStage::ComputeHeadroom, HeicEvent::Table(Ok(t))) => {
                    &&& final(self).table == t
                    &&& final(self).stage == HeicStage::ListAuxiliary
                    &&& r is ListAuxiliary
                },
                (HeicStage::ListAuxiliary, HeicEvent::Types(Ok(types))) => if exists|i: int|
                    first_gainmap(types@, i) {
                    &&& final(self).stage == HeicStage::DecodeGainmap
                    &&& r matches HeicAction::DecodeAuxiliary(i) && first_gainmap(types@, i as int)
                } else {
                    ends_with(*final(self), r, ConvertError::NoGainmap)
                },
                (HeicStage::DecodeGainmap, HeicEvent::Plane(Ok(p))) => if p matches Some(y)
                    && y.well_formed() {
                    &&& final(self).stage == HeicStage::EncodeGainmap
                    &&& r matches HeicAction::EncodeGray { pixels, width, height, quality }
                    &&& pixels@ == mapped(p->Some_0, old(self).table@, p->Some_0.height as nat)
                    &&& width == p->Some_0.width && height == p->Some_0.height
                    &&& quality == clamped_quality(req.gainmap_quality as int)
                } else {
                    ends_with(*final(self), r, ConvertError::UnsupportedFormat)
                },
                (HeicStage::EncodeGainmap, HeicEvent::Bytes(Ok(g))) => {
                    &&& final(self).stage == HeicStage::Mux
                    &&& r == HeicAction::Mux {
                        gainmap: g,
                        base_quality: clamped_quality(req.image_quality as int) as i32,
                        gainmap_quality: clamped_quality(req.gainmap_quality as int) as i32,
                    }
                    &&& final(self).base == old(self).base
                },
                (HeicStage::Mux, HeicEvent::Bytes(Ok(b))) => final(self).stage
                    == HeicStage::WriteOutput && r == HeicAction::WriteOutput(b),
                (HeicStage::WriteOutput, HeicEvent::Completed(Ok(_))) => final(self).stage
                    == HeicStage::CopyMeta && r is CopyMeta,
                (HeicStage::CopyMeta, HeicEvent::Completed(Ok(_))) => final(self).stage
                    == HeicStage::Finished && final(self).outcome == Some(
                    Ok::<(), ConvertError>(()),
                ) && r is Finish,
                _ => true,
            },
    {
        match e {
            HeicEvent::Value(Err(x)) => self.fail(x),
            HeicEvent::Decoded(Err(x)) => self.fail(x),
            HeicEvent::Bytes(Err(x)) => self.fail(x),
            HeicEvent::Table(Err(x)) => self.fail(x),
            HeicEvent::Types(Err(x)) => self.fail(x),
            HeicEvent::Plane(Err(x)) => self.fail(x),
            HeicEvent::Completed(Err(x)) => self.fail(x),
            HeicEvent::Value(Ok(v)) => {
                if self.stage == HeicStage::ReadProfile {
                    match check_profile(&v) {
                        Ok(()) => {
                            self.profile = v;
                            self.stage = HeicStage::DecodePrimary;
                            HeicAction::DecodePrimary
                        },
                        Err(x) => self.fail(x),
                    }
                } else {
                    self.answers.push(v);
                    self.next_headroom_step()
                }
            },
            HeicEvent::Decoded(Ok(img)) => self.primary_decoded(req, img),
            HeicEvent::Bytes(Ok(b)) => {
                if self.stage == HeicStage::EncodePrimary {
                    self.base = b;
                    self.answers = Vec::new();
                    self.next_headroom_step()
                } else if self.stage == HeicStage::EncodeGainmap {
                    self.stage = HeicStage::Mux;
                    HeicAction::Mux {
                        gainmap: b,
                        base_quality: clamp_quality(req.image_quality),
                        gainmap_quality: clamp_quality(req.gainmap_quality),
                    }
                } else {
                    self.stage = HeicStage::WriteOutput;
                    HeicAction::WriteOutput(b)
                }
            },
            HeicEvent::XmpUnparsable => {
                if self.answers.len() == 2 && self.answers[0].is_some()
                    && self.answers[1].is_some() {
                    let ghost before = self.answers@;
                    self.answers.pop();
                    self.answers.push(None);
                    assert(self.answers@ =~= before.update(1, None));
                    self.next_headroom_step()
                } else {
                    self.fail(ConvertError::Parse(TAG_GAINMAP_HEADROOM))
                }
            },
            HeicEvent::Table(Ok(t)) => {
                self.table = t;
                self.stage = HeicStage::ListAuxiliary;
                HeicAction::ListAuxiliary
            },
            HeicEvent::Types(Ok(types)) => match find_gainmap(&types) {
                Ok(i) => {
                    self.stage = HeicStage::DecodeGainmap;
                    HeicAction::DecodeAuxiliary(i)
                },
                Err(x) => {
                    assert(forall|i: int| !first_gainmap(types@, i));
                    self.fail(x)
                },
            },
            HeicEvent::Plane(Ok(p)) => match p {
                Some(y) => match remap_gainmap(&y, &self.table) {
                    Ok(pixels) => {
                        self.stage = HeicStage::EncodeGainmap;
                        HeicAction::EncodeGray {
                            pixels,
                            width: y.width,
                            height: y.height,
                            quality: clamp_quality(req.gainmap_quality),
                        }
                    },
                    Err(x) => self.fail(x),
                },
                None => self.fail(ConvertError::UnsupportedFormat),
            },
            HeicEvent::Completed(Ok(())) => {
                if self.stage == HeicStage::WriteOutput {
                    self.output_written = true;
                    self.stage = HeicStage::CopyMeta;
                    HeicAction::CopyMeta
                } else {
                    self.stage = HeicStage::Finished;
                    self.outcome = Some(Ok(()));
                    HeicAction::Finish
                }
            },
        }
    }

    fn next_headroom_step(&mut self) -> (r: HeicAction)
        requires
            old(self).outcome is None,
        ensures
            after_headroom(*final(self), r, old(self).answers@),
            final(self).answers == old(self).answers,
            final(self).profile == old(self).profile,
            final(self).base == old(self).base,
            final(self).table == old(self).table,
            final(self).output_written == old(self).output_written,
            final(self).stage != HeicStage::Finished ==> final(self).outcome is None,
    {
        match headroom_step(&self.answers) {
            HeadroomStep::Read(t) => {
                self.stage = HeicStage::ReadHeadroom;
                HeicAction::ReadTag(t)
            },
            HeadroomStep::Done(Err(x)) => self.fail(x),
            HeadroomStep::Done(Ok(src)) => match image_output(
                &self.profile,
                !matches!(src, HeadroomSource::NotHdr),
            ) {
                Ok(ImageOutput::PlainJpeg) => {
                    self.stage = HeicStage::WriteOutput;
                    HeicAction::WriteBase
                },
                Ok(ImageOutput::UltraHdr) => {
                    self.stage = HeicStage::ComputeHeadroom;
                    HeicAction::ComputeHeadroom(src)
                },
                Err(x) => self.fail(x),
            },
        }
    }

    fn primary_decoded(&mut self, req: &ConvertRequest, img: DecodedImage) -> (r: HeicAction)
        requires
            old(self).outcome is None,
        ensures
            final(self).stage != HeicStage::Finished ==> final(self).outcome is None,
            final(self).answers == old(self).answers,
            final(self).profile == old(self).profile,
            final(self).base == old(self).base,
            final(self).table == old(self).table,
            final(self).output_written == old(self).output_written,
            decoded_ok(img) ==> {
                &&& final(self).stage == HeicStage::EncodePrimary
                &&& r matches HeicAction::EncodeYuv { pixels, width, height, quality }
                &&& pixels@ == yuv420_buffer(
                    img.width,
                    img.height,
                    img.y->Some_0,
                    img.cb->Some_0,
                    img.cr->Some_0,
                )
                &&& width == img.width && height == img.height
                &&& quality == clamped_quality(req.image_quality as int)
            },
            !decoded_ok(img) ==> ends_with(*final(self), r, ConvertError::UnsupportedFormat),
    {
        if !img.ycbcr420 {
            return self.fail(ConvertError::UnsupportedFormat);
        }
        match img.luma_bits {
            Some(b) => if b != 8 {
                return self.fail(ConvertError::UnsupportedFormat);
            },
            None => return self.fail(ConvertError::UnsupportedFormat),
        }
        match (&img.y, &img.cb, &img.cr) {
            (Some(y), Some(cb), Some(cr)) => match pack_yuv420(img.width, img.height, y, cb, cr) {
                Ok(pixels) => {
                    self.stage = HeicStage::EncodePrimary;
                    HeicAction::EncodeYuv {
                        pixels,
                        width: img.width,
                        height: img.height,
                        quality: clamp_quality(req.image_quality),
                    }
                },
                Err(x) => self.fail(x),
            },
            _ => self.fail(ConvertError::UnsupportedFormat),
        }
    }
}

impl ConvertRequest {
    /// Starts converting the HEIC image: it first asks for the colour profile.
    /// An image that is not HEIC by its extension is refused at once.
    pub fn convert_heic_to_jpg(&self) -> (r: (HeicConversion, HeicAction))
        ensures
            r.0.answers@ == Seq::<Option<String>>::empty(),
            !r.0.output_written,
            self.input_heic() == Ok::<bool, ()>(true) ==> {
                &&& r.0.stage == HeicStage::ReadProfile
                &&& r.0.outcome is None
                &&& r.0.profile is None
                &&& r.1 == HeicAction::ReadTag(TAG_PROFILE)
            },
            self.input_heic() == Ok::<bool, ()>(false) ==> ends_with(
                r.0,
                r.1,
                ConvertError::NotHeic,
            ),
            self.input_heic() is Err ==> ends_with(r.0, r.1, ConvertError::NoImageExtension),
    {
        let mut c = HeicConversion {
            stage: HeicStage::ReadProfile,
            profile: None,
            answers: Vec::new(),
            base: Vec::new(),
            table: [0u8; 256],
            output_written: false,
            outcome: None,
        };
        match self.is_input_heic() {
            Ok(true) => (c, HeicAction::ReadTag(TAG_PROFILE)),
            Ok(false) => {
                let a = c.fail(ConvertError::NotHeic);
                (c, a)
            },
            Err(x) => {
                let a = c.fail(x);
                (c, a)
            },
        }
    }
}

} // verus!
