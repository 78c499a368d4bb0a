use aa_photo_bridge::audio::{AudioChunk, AudioClock};
use aa_photo_bridge::error::ConvertError;
use aa_photo_bridge::motion::{is_motion_photo, needs_transcode, transcode_target, VideoAudioEncodeRequest};

#[test]
fn marker_one_is_motion_photo() {
    assert!(is_motion_photo(&Some("1".to_string())));
    assert!(!is_motion_photo(&Some("0".to_string())));
    assert!(!is_motion_photo(&None));
}

#[test]
fn aac_and_ac3_pass_through() {
    assert!(!needs_transcode(&None));
    assert!(!needs_transcode(&Some("aac".to_string())));
    assert!(!needs_transcode(&Some("ac3".to_string())));
    assert!(needs_transcode(&Some("pcm_s16le".to_string())));
    assert!(needs_transcode(&Some("AAC".to_string())));
}

#[test]
fn transcode_target_sits_beside_video() {
    assert_eq!(
        transcode_target("/photos/IMG_3853.MOV").unwrap(),
        "/photos/IMG_3853-aac-converting.mp4"
    );
    assert_eq!(transcode_target("clip.mov").unwrap(), "clip-aac-converting.mp4");
    assert!(matches!(transcode_target("/"), Err(ConvertError::BadVideoName)));
}

#[test]
fn aac_request_settings() {
    let r = VideoAudioEncodeRequest::aac("in.MOV".to_string(), "out.mp4".to_string());
    assert_eq!(r.encoder, "aac");
    assert_eq!(r.bit_rate, 128 << 10);
    assert_eq!(r.input, "in.MOV");
    assert_eq!(r.output, "out.mp4");
}

#[test]
fn audio_frames_are_contiguous() {
    let mut c = AudioClock::new(1024);
    c.push(1500);
    assert_eq!(c.next_frame(), Some(AudioChunk { pts: 0, samples: 1024 }));
    assert_eq!(c.next_frame(), None);
    c.push(1000);
    assert_eq!(c.next_frame(), Some(AudioChunk { pts: 1024, samples: 1024 }));
    assert_eq!(c.next_frame(), None);
    assert_eq!(c.tail(), Some(AudioChunk { pts: 2048, samples: 452 }));
    assert_eq!(c.tail(), None);
    assert_eq!(c.running_pts, 2500);
}

#[test]
fn audio_tail_of_exact_frames_is_empty() {
    let mut c = AudioClock::new(4);
    c.push(8);
    assert_eq!(c.next_frame(), Some(AudioChunk { pts: 0, samples: 4 }));
    assert_eq!(c.next_frame(), Some(AudioChunk { pts: 4, samples: 4 }));
    assert_eq!(c.tail(), None);
}
