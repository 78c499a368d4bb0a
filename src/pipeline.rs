//! The order of a conversion: validate, write the image, append the video,
//! tag, and restore the file times; with the output removed on any failure
//! after it was written.
use vstd::prelude::*;

use crate::error::ConvertError;
use crate::exiftool::{arg_views, motion_photo_args, ExifTool, Invocation};
use crate::guard::Guard;
use crate::motion::{
    audio_passes,
    is_motion_photo,
    motion_marker,
    needs_transcode,
    transcode_path,
    transcode_target,
};
use crate::request::{ConvertRequest, PathFacts};
use crate::text::decimal;

verus! {

/// Where a conversion stands: the work it waits on.
#[derive(Debug, Clone, Copy, PartialEq, Eq, Structural)]
pub enum Stage {
    /// The facts about the request's paths.
    Validate,
    /// The HEIC image converted to JPEG at the output.
    ConvertHeic,
    /// The image copied to the output as it is.
    CopyImage,
    /// The motion-photo marker of the output.
    ReadMarker,
    /// The audio codec of the video.
    ProbeAudio,
    /// Whether the converted video's file already exists.
    CheckTemp,
    /// The video re-written with converted audio.
    Transcode,
    /// The video appended to the output.
    Append,
    /// The motion-photo tags written onto the output.
    Tag,
    /// The image's file times copied onto the output.
    Sync,
    /// Nothing: the conversion is over.
    Finished,
}

/// The work to do next.
#[derive(Debug, Clone, Copy, PartialEq, Eq, Structural)]
pub enum Action {
    InspectPaths,
    ConvertHeic,
    CopyImage,
    ReadMotionMarker,
    ProbeAudio,
    CheckTemp,
    Transcode,
    AppendVideo,
    WriteMotionTags,
    SyncTimes,
    /// Remove what the armed guards name and report the outcome.
    Finish,
}

/// What the last piece of work gave.
pub enum Event {
    /// The facts about the request's paths.
    Paths(PathFacts),
    /// The image was written to the output, or its writing failed; the flag
    /// tells whether the output file was written, even in part.
    Image(Result<(), ConvertError>, bool),
    /// Work without a value ended.
    Completed(Result<(), ConvertError>),
    /// The video was appended; the number of bytes written.
    Appended(Result<u64, ConvertError>),
    /// A tag or codec was read; `None` when absent.
    Value(Result<Option<String>, ConvertError>),
    /// Whether a file exists.
    Exists(bool),
}

/// The action that a stage asks for.
pub open spec fn action_for(s: Stage) -> Action {
    match s {
        Stage::Validate => Action::InspectPaths,
        Stage::ConvertHeic => Action::ConvertHeic,
        Stage::CopyImage => Action::CopyImage,
        Stage::ReadMarker => Action::ReadMotionMarker,
        Stage::ProbeAudio => Action::ProbeAudio,
        Stage::CheckTemp => Action::CheckTemp,
        Stage::Transcode => Action::Transcode,
        Stage::Append => Action::AppendVideo,
        Stage::Tag => Action::WriteMotionTags,
        Stage::Sync => Action::SyncTimes,
        Stage::Finished => Action::Finish,
    }
}

/// The event is the kind that the stage waits on.
pub open spec fn expects(s: Stage, e: Event) -> bool {
    match s {
        Stage::Validate => e is Paths,
        Stage::ReadMarker | Stage::ProbeAudio => e is Value,
        Stage::CheckTemp => e is Exists,
        Stage::Append => e is Appended,
        Stage::ConvertHeic | Stage::CopyImage => e is Image,
        Stage::Finished => false,
        _ => e is Completed,
    }
}

/// The output has been written: from here a failure removes it. (A failure
/// while the image is written removes it too when the output file was made.)
pub open spec fn output_written(s: Stage) -> bool {
    !(s is Validate || s is ConvertHeic || s is CopyImage || s is Finished)
}

/// The error that the event reports, if any.
pub open spec fn event_error(e: Event) -> Option<ConvertError> {
    match e {
        Event::Image(Err(x), _) => Some(x),
        Event::Completed(Err(x)) => Some(x),
        Event::Value(Err(x)) => Some(x),
        Event::Appended(Err(x)) => Some(x),
        _ => None,
    }
}

/// The stage that follows `s` on event `e`.
pub open spec fn next_stage(req: ConvertRequest, s: Stage, e: Event) -> Stage {
    if event_error(e) is Some {
        Stage::Finished
    } else {
        match (s, e) {
            (Stage::Validate, Event::Paths(f)) => match (req.validation(f), req.input_heic()) {
                (Ok(_), Ok(true)) => Stage::ConvertHeic,
                (Ok(_), Ok(false)) => Stage::CopyImage,
                _ => Stage::Finished,
            },
            (Stage::ConvertHeic, _) => Stage::ReadMarker,
            (Stage::CopyImage, _) => Stage::ReadMarker,
            (Stage::ReadMarker, Event::Value(Ok(v))) => if motion_marker(v) {
                Stage::Sync
            } else {
                Stage::ProbeAudio
            },
            (Stage::ProbeAudio, Event::Value(Ok(c))) => if audio_passes(c) {
                Stage::Append
            } else if transcode_path(req.video_path@) is Some {
                Stage::CheckTemp
            } else {
                Stage::Finished
            },
            (Stage::CheckTemp, Event::Exists(b)) => if b {
                Stage::Finished
            } else {
                Stage::Transcode
            },
            (Stage::Transcode, _) => Stage::Append,
            (Stage::Append, _) => Stage::Tag,
            (Stage::Tag, _) => Stage::Sync,
            _ => Stage::Finished,
        }
    }
}

/// The error that ends the conversion when `s` on event `e` fails.
pub open spec fn failure(req: ConvertRequest, s: Stage, e: Event) -> ConvertError {
    match event_error(e) {
        Some(x) => x,
        None => match e {
            Event::Paths(f) => match req.validation(f) {
                Err(v) => ConvertError::Validation(v),
                Ok(_) => ConvertError::NoImageExtension,
            },
            Event::Exists(_) => ConvertError::TempExists,
            _ => ConvertError::BadVideoName,
        },
    }
}

/// One conversion under way.
pub struct Conversion {
    pub stage: Stage,
    /// Removes the output unless the conversion succeeds; set once the output
    /// is written.
    pub output_guard: Option<Guard>,
    /// Where the video with converted audio goes, once that is decided.
    pub temp_path: Option<String>,
    /// Removes the converted video when the conversion ends; set once its
    /// writing starts.
    pub temp_guard: Option<Guard>,
    /// The number of bytes of video appended to the output, once it is.
    pub appended: Option<u64>,
    /// How the conversion ended, once it has.
    pub outcome: Option<Result<(), ConvertError>>,
}

impl Conversion {
    /// The guards match the stage: the output's is armed from the moment the
    /// output is written until the conversion succeeds, and stays armed when
    /// it fails; the converted video's guard, once set, names that video and
    /// stays armed to the end.
    pub open spec fn consistent(&self, req: ConvertRequest) -> bool {
        &&& output_written(self.stage) ==> self.output_guard == Some(
            Guard { path: req.output_path, armed: true },
        )
        &&& (self.stage is Validate || self.stage is ConvertHeic || self.stage is CopyImage)
            ==> self.output_guard is None
        &&& (self.stage is CheckTemp || self.stage is Transcode) ==> self.temp_path is Some
        &&& (self.stage is Validate || self.stage is ConvertHeic || self.stage is CopyImage
            || self.stage is ReadMarker || self.stage is ProbeAudio) ==> self.temp_path is None
        &&& self.stage is Tag ==> self.appended is Some
        &&& self.outcome == Some(Ok::<(), ConvertError>(())) ==> self.output_guard == Some(
            Guard { path: req.output_path, armed: false },
        )
        &&& (self.outcome matches Some(Err(_)) && self.output_guard is Some)
            ==> self.output_guard == Some(Guard { path: req.output_path, armed: true })
        &&& (self.stage is Validate || self.stage is ConvertHeic || self.stage is CopyImage
            || self.stage is ReadMarker || self.stage is ProbeAudio || self.stage is CheckTemp)
            ==> self.temp_guard is None
        &&& self.temp_guard is Some ==> self.temp_path is Some && self.temp_guard == Some(
            Guard { path: self.temp_path->Some_0, armed: true },
        )
        &&& !(self.stage is Finished) ==> self.outcome is None
    }

    /// The video to append: the converted copy if there is one, else the
    /// request's video.
    pub fn video_to_append<'a>(&'a self, req: &'a ConvertRequest) -> (r: &'a String)
        ensures
            match self.temp_path {
                Some(t) => r == &t,
                None => r == &req.video_path,
            },
    {
        match &self.temp_path {
            Some(t) => t,
            None => &req.video_path,
        }
    }

    /// The run of the EXIF tool that marks the output as a motion photo whose
    /// video is the bytes just appended: the offset it writes is their number.
    pub fn motion_tags(&self, req: &ConvertRequest, tool: &ExifTool, config: &str) -> (r:
        Invocation)
        requires
            self.stage is Tag,
            self.consistent(*req),
        ensures
            r.program@ == tool.program_spec(),
            arg_views(r.args@) == motion_photo_args(
                config@,
                self.appended->Some_0 as nat,
                req.output_path@,
            ),
    {
        let size = match self.appended {
            Some(n) => n,
            None => 0,
        };
        tool.motion_photo_invocation(config, size, req.output_path.as_str())
    }

    fn finish(&mut self, e: ConvertError)
        ensures
            final(self).stage == Stage::Finished,
            final(self).outcome == Some(Err::<(), ConvertError>(e)),
            final(self).output_guard == old(self).output_guard,
            final(self).temp_path == old(self).temp_path,
            final(self).temp_guard == old(self).temp_guard,
            final(self).appended == old(self).appended,
    {
        self.stage = Stage::Finished;
        self.outcome = Some(Err(e));
    }

    /// Takes the result of the work that the stage waited on, and returns the
    /// work to do next. A failure ends the conversion with its error, and
    /// leaves the output's guard armed once the output was written; success
    /// at the last stage cancels it. The converted video's guard is never
    /// cancelled: that file goes at the end either way.
    pub fn step(&mut self, req: &ConvertRequest, e: Event) -> (r: Action)
        requires
            expects(old(self).stage, e),
            old(self).consistent(*req),
        ensures
            final(self).consistent(*req),
            final(self).stage == next_stage(*req, old(self).stage, e),
            r == action_for(final(self).stage),
            final(self).stage is Finished ==> final(self).outcome == if old(self).stage is Sync
                && event_error(e) is None {
                Some(Ok::<(), ConvertError>(()))
            } else {
                Some(Err::<(), ConvertError>(failure(*req, old(self).stage, e)))
            },
            !(final(self).stage is Finished) ==> final(self).outcome == old(self).outcome,
            output_written(old(self).stage) && event_error(e) is Some
                ==> final(self).output_guard == Some(Guard { path: req.output_path, armed: true }),
            final(self).output_guard == if (old(self).stage is ConvertHeic
                || old(self).stage is CopyImage) && (event_error(e) is None || e matches Event::Image(
                _,
                true,
            )) {
                Some(Guard { path: req.output_path, armed: true })
            } else if final(self).outcome == Some(Ok::<(), ConvertError>(())) {
                Some(Guard { path: req.output_path, armed: false })
            } else {
                old(self).output_guard
            },
            final(self).stage is CheckTemp ==> (final(self).temp_path matches Some(p) && Some(p@)
                == transcode_path(req.video_path@)),
            !(final(self).stage is CheckTemp) ==> final(self).temp_path == old(self).temp_path,
            final(self).appended == match e {
                Event::Appended(Ok(n)) => Some(n),
                _ => old(self).appended,
            },
            final(self).temp_guard == if old(self).stage is CheckTemp
                && final(self).stage is Transcode {
                Some(Guard { path: old(self).temp_path->Some_0, armed: true })
            } else {
                old(self).temp_guard
            },
    {
        let s = self.stage;
        match e {
            Event::Paths(f) => {
                match req.check_valid(&f) {
                    Err(v) => {
                        self.finish(ConvertError::Validation(v));
                        return Action::Finish;
                    },
                    Ok(()) => {},
                }
                match req.is_input_heic() {
                    Ok(true) => {
                        self.stage = Stage::ConvertHeic;
                        Action::ConvertHeic
                    },
                    Ok(false) => {
                        self.stage = Stage::CopyImage;
                        Action::CopyImage
                    },
                    Err(x) => {
                        self.finish(x);
                        Action::Finish
                    },
                }
            },
            Event::Image(Ok(()), _) => {
                self.output_guard = Some(Guard::new(req.output_path.clone()));
                self.stage = Stage::ReadMarker;
                Action::ReadMotionMarker
            },
            Event::Image(Err(x), written) => {
                if written {
                    self.output_guard = Some(Guard::new(req.output_path.clone()));
                }
                self.finish(x);
                Action::Finish
            },
            Event::Completed(Err(x)) => {
                self.finish(x);
                Action::Finish
            },
            Event::Value(Err(x)) => {
                self.finish(x);
                Action::Finish
            },
            Event::Completed(Ok(())) => {
                match s {
                    Stage::Transcode => {
                        self.stage = Stage::Append;
                        Action::AppendVideo
                    },
                    Stage::Tag => {
                        self.stage = Stage::Sync;
                        Action::SyncTimes
                    },
                    _ => {
                        match &mut self.output_guard {
                            Some(g) => g.cancel(),
                            None => {},
                        }
                        self.stage = Stage::Finished;
                        self.outcome = Some(Ok(()));
                        Action::Finish
                    },
                }
            },
            Event::Value(Ok(v)) => {
                if let Stage::ReadMarker = s {
                    if is_motion_photo(&v) {
                        self.stage = Stage::Sync;
                        Action::SyncTimes
                    } else {
                        self.stage = Stage::ProbeAudio;
                        Action::ProbeAudio
                    }
                } else if !needs_transcode(&v) {
                    self.stage = Stage::Append;
                    Action::AppendVideo
                } else {
                    match transcode_target(req.video_path.as_str()) {
                        Ok(t) => {
                            self.temp_path = Some(t);
                            self.stage = Stage::CheckTemp;
                            Action::CheckTemp
                        },
                        Err(x) => {
                            self.finish(x);
                            Action::Finish
                        },
                    }
                }
            },
            Event::Appended(Err(x)) => {
                self.finish(x);
                Action::Finish
            },
            Event::Appended(Ok(n)) => {
                self.appended = Some(n);
                self.stage = Stage::Tag;
                Action::WriteMotionTags
            },
            Event::Exists(b) => {
                if b {
                    self.finish(ConvertError::TempExists);
                    Action::Finish
                } else {
                    match &self.temp_path {
                        Some(t) => {
                            self.temp_guard = Some(Guard::new(t.clone()));
                        },
                        None => {},
                    }
                    self.stage = Stage::Transcode;
                    Action::Transcode
                }
            },
        }
    }
}

impl ConvertRequest {
    /// Starts the conversion: it first asks for the facts about the paths.
    pub fn convert(&self) -> (r: (Conversion, Action))
        ensures
            r.0.consistent(*self),
            r.0.stage == Stage::Validate,
            r.0.output_guard is None,
            r.0.temp_path is None,
            r.0.temp_guard is None,
            r.0.appended is None,
            r.0.outcome is None,
            r.1 == action_for(Stage::Validate),
    {
        (
            Conversion {
                stage: Stage::Validate,
                output_guard: None,
                temp_path: None,
                temp_guard: None,
                appended: None,
                outcome: None,
            },
            Action::InspectPaths,
        )
    }
}

/// An output that already carries the motion-photo marker gets no second
/// video: the conversion goes from reading the marker straight to restoring
/// the file times.
pub proof fn lemma_marked_output_skips_append(req: ConvertRequest, v: Option<String>)
    requires
        motion_marker(v),
    ensures
        next_stage(req, Stage::ReadMarker, Event::Value(Ok(v))) == Stage::Sync,
{
}

/// The tags written at the end of a conversion carry the marker that a later
/// run reads as `MicroVideo=1`.
pub proof fn lemma_tags_mark_motion_photo(config: Seq<char>, video_size: nat, output: Seq<char>)
    ensures
        motion_photo_args(config, video_size, output)[2] == "-XMP-GCamera:MicroVideo=1"@,
{
}

/// The offset that the motion-photo tags write is the number of video bytes
/// that the append step reported.
pub proof fn lemma_offset_is_appended_size(
    c: Conversion,
    req: ConvertRequest,
    config: Seq<char>,
)
    requires
        c.consistent(req),
        c.stage is Tag,
    ensures
        c.appended is Some,
        motion_photo_args(config, c.appended->Some_0 as nat, req.output_path@)[5]
            == "-XMP-GCamera:MicroVideoOffset="@ + decimal(c.appended->Some_0 as nat),
{
}

/// A video whose audio is AAC or AC-3, or that has none, is appended as it
/// is: the conversion goes from probing the audio straight to appending the
/// request's own video, with no converted copy.
pub proof fn lemma_passing_audio_appends_original(
    req: ConvertRequest,
    c: Conversion,
    codec: Option<String>,
)
    requires
        c.consistent(req),
        c.stage is ProbeAudio,
        audio_passes(codec),
    ensures
        next_stage(req, Stage::ProbeAudio, Event::Value(Ok(codec))) == Stage::Append,
        c.temp_path is None,
{
}

} // verus!
