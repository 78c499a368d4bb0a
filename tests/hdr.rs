use aa_photo_bridge::error::ConvertError;
use aa_photo_bridge::hdr::{
    check_profile, clamp_quality, find_gainmap, headroom_step, image_output, HeadroomSource,
    HeadroomStep, ImageOutput,
};

fn s(v: &str) -> Option<String> {
    Some(v.to_string())
}

#[test]
fn headroom_reading_starts_with_version() {
    assert!(matches!(headroom_step(&vec![]), HeadroomStep::Read("xmp:HDRGainMapVersion")));
}

#[test]
fn no_version_is_not_hdr() {
    assert!(matches!(headroom_step(&vec![None]), HeadroomStep::Done(Ok(HeadroomSource::NotHdr))));
}

#[test]
fn xmp_headroom_wins() {
    assert!(matches!(headroom_step(&vec![s("1.0")]), HeadroomStep::Read("xmp:HDRGainMapHeadroom")));
    let r = headroom_step(&vec![s("1.0"), s("4.0")]);
    assert!(matches!(r, HeadroomStep::Done(Ok(HeadroomSource::Xmp(ref h))) if h == "4.0"));
}

#[test]
fn maker_notes_are_read_without_xmp_headroom() {
    assert!(matches!(headroom_step(&vec![s("1.0"), None]), HeadroomStep::Read("MakerNotes:HDRHeadroom")));
    assert!(matches!(
        headroom_step(&vec![s("1.0"), None, s("0.5")]),
        HeadroomStep::Read("MakerNotes:HDRGain")
    ));
    let r = headroom_step(&vec![s("1.0"), None, s("0.5"), s("0.005")]);
    assert!(matches!(
        r,
        HeadroomStep::Done(Ok(HeadroomSource::MakerNotes { ref headroom, ref gain }))
            if headroom == "0.5" && gain == "0.005"
    ));
    let r = headroom_step(&vec![s("1.0"), None, s("1.5"), s("0.5")]);
    assert!(matches!(
        r,
        HeadroomStep::Done(Ok(HeadroomSource::MakerNotes { ref headroom, ref gain }))
            if headroom == "1.5" && gain == "0.5"
    ));
}

#[test]
fn missing_maker_notes_are_errors() {
    let r = headroom_step(&vec![s("1.0"), None, None]);
    assert!(matches!(r, HeadroomStep::Done(Err(ConvertError::MissingMetadata("MakerNotes:HDRHeadroom")))));
    let r = headroom_step(&vec![s("1.0"), None, s("0.5"), None]);
    assert!(matches!(r, HeadroomStep::Done(Err(ConvertError::MissingMetadata("MakerNotes:HDRGain")))));
}

#[test]
fn profile_must_be_display_p3() {
    assert!(check_profile(&None).is_ok());
    assert!(check_profile(&s("Display P3")).is_ok());
    assert!(check_profile(&s("Display P3 (Apple)")).is_ok());
    assert!(matches!(check_profile(&s("sRGB IEC61966-2.1")), Err(ConvertError::UnsupportedFormat)));
    assert!(matches!(check_profile(&s("Display")), Err(ConvertError::UnsupportedFormat)));
}

#[test]
fn output_kind_follows_headroom() {
    assert!(matches!(image_output(&None, false), Ok(ImageOutput::PlainJpeg)));
    assert!(matches!(image_output(&s("Display P3"), false), Ok(ImageOutput::PlainJpeg)));
    assert!(matches!(image_output(&s("Display P3"), true), Ok(ImageOutput::UltraHdr)));
    assert!(matches!(image_output(&None, true), Err(ConvertError::UnsupportedFormat)));
}

#[test]
fn gainmap_found_by_exact_type() {
    let types = vec![
        "urn:mpeg:hevc:2015:auxid:1".to_string(),
        "urn:com:apple:photo:2020:aux:hdrgainmapx".to_string(),
        "urn:com:apple:photo:2020:aux:hdrgainmap".to_string(),
        "urn:com:apple:photo:2020:aux:hdrgainmap".to_string(),
    ];
    assert_eq!(find_gainmap(&types).unwrap(), 2);
    assert!(matches!(find_gainmap(&types[..2].to_vec()), Err(ConvertError::NoGainmap)));
    assert!(matches!(find_gainmap(&vec![]), Err(ConvertError::NoGainmap)));
}

#[test]
fn quality_is_clamped() {
    assert_eq!(clamp_quality(-5), 0);
    assert_eq!(clamp_quality(0), 0);
    assert_eq!(clamp_quality(85), 85);
    assert_eq!(clamp_quality(100), 100);
    assert_eq!(clamp_quality(250), 100);
}
