use aa_photo_bridge::error::{ConvertError, ValidationError};
use aa_photo_bridge::exiftool::ExifTool;
use aa_photo_bridge::pipeline::{Action, Event, Stage};
use aa_photo_bridge::request::{ConvertRequest, PathFacts};

fn request(image: &str, output: &str) -> ConvertRequest {
    ConvertRequest {
        image_path: image.to_string(),
        video_path: "/photos/IMG_3853.MOV".to_string(),
        output_path: output.to_string(),
        exiftool_path: None,
        overwrite_existing: false,
        image_quality: 85,
        gainmap_quality: 85,
    }
}

fn facts() -> PathFacts {
    PathFacts {
        image_exists: true,
        image_is_file: true,
        video_exists: true,
        video_is_file: true,
        output_exists: false,
        output_is_dir: false,
        output_parent_exists: Some(true),
    }
}

fn ok() -> Event {
    Event::Completed(Ok(()))
}

fn written() -> Event {
    Event::Image(Ok(()), true)
}

fn value(v: Option<&str>) -> Event {
    Event::Value(Ok(v.map(|s| s.to_string())))
}

#[test]
fn plain_heic_with_aac_video() {
    let req = request("/photos/IMG_3853.HEIC", "/out/MVIMG_3853.jpg");
    let (mut c, first) = req.convert();
    assert_eq!(first, Action::InspectPaths);
    assert_eq!(c.stage, Stage::Validate);
    assert_eq!(c.step(&req, Event::Paths(facts())), Action::ConvertHeic);
    assert!(c.output_guard.is_none());
    assert_eq!(c.step(&req, written()), Action::ReadMotionMarker);
    let g = c.output_guard.as_ref().unwrap();
    assert!(g.armed);
    assert_eq!(g.path, "/out/MVIMG_3853.jpg");
    assert_eq!(c.step(&req, value(None)), Action::ProbeAudio);
    assert_eq!(c.step(&req, value(Some("aac"))), Action::AppendVideo);
    assert_eq!(c.video_to_append(&req), "/photos/IMG_3853.MOV");
    assert_eq!(c.step(&req, Event::Appended(Ok(2_500_000))), Action::WriteMotionTags);
    assert_eq!(c.appended, Some(2_500_000));
    let tags = c.motion_tags(&req, &ExifTool::new(), "/tmp/cfg");
    assert_eq!(tags.args[5], "-XMP-GCamera:MicroVideoOffset=2500000");
    assert_eq!(tags.args[8], "/out/MVIMG_3853.jpg");
    assert_eq!(c.step(&req, ok()), Action::SyncTimes);
    assert_eq!(c.step(&req, ok()), Action::Finish);
    assert_eq!(c.stage, Stage::Finished);
    assert!(matches!(c.outcome, Some(Ok(()))));
    assert!(c.output_guard.as_ref().unwrap().pending().is_none());
    assert!(c.temp_guard.is_none());
}

#[test]
fn jpeg_input_is_copied() {
    let req = request("/photos/IMG_3853.JPG", "/out/MVIMG_3853.jpg");
    let (mut c, _) = req.convert();
    assert_eq!(c.step(&req, Event::Paths(facts())), Action::CopyImage);
}

#[test]
fn pcm_audio_is_transcoded_first() {
    let req = request("/photos/IMG_3853.HEIC", "/out/MVIMG_3853.jpg");
    let (mut c, _) = req.convert();
    c.step(&req, Event::Paths(facts()));
    c.step(&req, written());
    c.step(&req, value(None));
    assert_eq!(c.step(&req, value(Some("pcm_s16le"))), Action::CheckTemp);
    assert_eq!(c.temp_path.as_deref(), Some("/photos/IMG_3853-aac-converting.mp4"));
    assert!(c.temp_guard.is_none());
    assert_eq!(c.step(&req, Event::Exists(false)), Action::Transcode);
    assert!(c.temp_guard.as_ref().unwrap().armed);
    assert_eq!(c.step(&req, ok()), Action::AppendVideo);
    assert_eq!(c.video_to_append(&req), "/photos/IMG_3853-aac-converting.mp4");
    assert_eq!(c.step(&req, Event::Appended(Ok(900_001))), Action::WriteMotionTags);
    let tags = c.motion_tags(&req, &ExifTool::new(), "/tmp/cfg");
    assert_eq!(tags.args[5], "-XMP-GCamera:MicroVideoOffset=900001");
    assert_eq!(c.step(&req, ok()), Action::SyncTimes);
    assert_eq!(c.step(&req, ok()), Action::Finish);
    assert!(matches!(c.outcome, Some(Ok(()))));
    // the converted copy goes at the end, the output stays
    assert_eq!(
        c.temp_guard.as_ref().unwrap().pending().map(|p| p.as_str()),
        Some("/photos/IMG_3853-aac-converting.mp4")
    );
    assert!(c.output_guard.as_ref().unwrap().pending().is_none());
}

#[test]
fn existing_temp_file_stops_without_removing_it() {
    let req = request("/photos/IMG_3853.HEIC", "/out/MVIMG_3853.jpg");
    let (mut c, _) = req.convert();
    c.step(&req, Event::Paths(facts()));
    c.step(&req, written());
    c.step(&req, value(None));
    c.step(&req, value(Some("pcm_s16le")));
    assert_eq!(c.step(&req, Event::Exists(true)), Action::Finish);
    assert!(matches!(c.outcome, Some(Err(ConvertError::TempExists))));
    assert!(c.temp_guard.is_none());
    assert!(c.output_guard.as_ref().unwrap().armed);
}

#[test]
fn second_run_skips_append() {
    let req = request("/out/MVIMG_3853.jpg", "/out/MVIMG_3853.jpg");
    let mut f = facts();
    f.output_exists = true;
    let (mut c, _) = req.convert();
    assert_eq!(c.step(&req, Event::Paths(f)), Action::CopyImage);
    assert_eq!(c.step(&req, written()), Action::ReadMotionMarker);
    assert_eq!(c.step(&req, value(Some("1"))), Action::SyncTimes);
    assert_eq!(c.step(&req, ok()), Action::Finish);
    assert!(matches!(c.outcome, Some(Ok(()))));
}

#[test]
fn failure_after_output_keeps_guard_armed() {
    let req = request("/photos/IMG_3853.HEIC", "/out/MVIMG_3853.jpg");
    let (mut c, _) = req.convert();
    c.step(&req, Event::Paths(facts()));
    c.step(&req, written());
    c.step(&req, value(None));
    c.step(&req, value(Some("aac")));
    let r = c.step(&req, Event::Appended(Err(ConvertError::Io("disk full".to_string()))));
    assert_eq!(r, Action::Finish);
    assert!(matches!(c.outcome, Some(Err(ConvertError::Io(ref m))) if m == "disk full"));
    assert_eq!(
        c.output_guard.as_ref().unwrap().pending().map(|p| p.as_str()),
        Some("/out/MVIMG_3853.jpg")
    );
}

#[test]
fn failed_image_write_leaves_no_guard() {
    let req = request("/photos/IMG_3853.HEIC", "/out/MVIMG_3853.jpg");
    let (mut c, _) = req.convert();
    c.step(&req, Event::Paths(facts()));
    assert_eq!(c.step(&req, Event::Image(Err(ConvertError::Decode), false)), Action::Finish);
    assert!(matches!(c.outcome, Some(Err(ConvertError::Decode))));
    assert!(c.output_guard.is_none());
}

#[test]
fn invalid_request_finishes_at_once() {
    let req = request("/photos/IMG_3853.HEIC", "/out/photo.tiff");
    let (mut c, _) = req.convert();
    assert_eq!(c.step(&req, Event::Paths(facts())), Action::Finish);
    assert!(matches!(
        c.outcome,
        Some(Err(ConvertError::Validation(ValidationError::BadOutputExtension)))
    ));
}

#[test]
fn failed_tag_copy_after_write_removes_output() {
    let req = request("/photos/IMG_3853.HEIC", "/out/MVIMG_3853.jpg");
    let (mut c, _) = req.convert();
    c.step(&req, Event::Paths(facts()));
    let r = c.step(&req, Event::Image(Err(ConvertError::Tool("copy failed".to_string())), true));
    assert_eq!(r, Action::Finish);
    assert!(matches!(c.outcome, Some(Err(ConvertError::Tool(_)))));
    assert_eq!(
        c.output_guard.as_ref().unwrap().pending().map(|p| p.as_str()),
        Some("/out/MVIMG_3853.jpg")
    );
}
