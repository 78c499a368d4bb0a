use aa_photo_bridge::error::ConvertError;
use aa_photo_bridge::planes::{pack_yuv420, remap_gainmap, RawPlane};

fn plane(width: u32, height: u32, stride: usize, data: Vec<u8>) -> RawPlane {
    RawPlane { width, height, stride, storage_bits: 8, data }
}

#[test]
fn one_pixel_image_pads_to_two_by_two() {
    let y = plane(1, 1, 1, vec![200]);
    let cb = plane(1, 1, 1, vec![100]);
    let cr = plane(1, 1, 1, vec![50]);
    let buf = pack_yuv420(1, 1, &y, &cb, &cr).unwrap();
    assert_eq!(buf, vec![200, 0, 0, 0, 100, 50]);
}

#[test]
fn odd_size_with_stride_padding() {
    // 3 x 3 luma with stride 4; chroma 2 x 2 with stride 3.
    let y = plane(3, 3, 4, vec![1, 2, 3, 99, 4, 5, 6, 99, 7, 8, 9, 99]);
    let cb = plane(2, 2, 3, vec![10, 11, 99, 12, 13, 99]);
    let cr = plane(2, 2, 3, vec![20, 21, 99, 22, 23, 99]);
    let buf = pack_yuv420(3, 3, &y, &cb, &cr).unwrap();
    // w1 * h1 + 2 * w2 * h2 = 16 + 8
    assert_eq!(buf.len(), 24);
    assert_eq!(
        buf,
        vec![1, 2, 3, 0, 4, 5, 6, 0, 7, 8, 9, 0, 0, 0, 0, 0, 10, 11, 12, 13, 20, 21, 22, 23]
    );
}

#[test]
fn even_size_is_packed_tightly() {
    let y = plane(2, 2, 2, vec![1, 2, 3, 4]);
    let cb = plane(1, 1, 1, vec![5]);
    let cr = plane(1, 1, 1, vec![6]);
    assert_eq!(pack_yuv420(2, 2, &y, &cb, &cr).unwrap(), vec![1, 2, 3, 4, 5, 6]);
}

#[test]
fn wrong_chroma_size_is_refused() {
    let y = plane(3, 3, 3, vec![0; 9]);
    let cb = plane(1, 2, 1, vec![0; 2]);
    let cr = plane(2, 2, 2, vec![0; 4]);
    assert!(matches!(pack_yuv420(3, 3, &y, &cb, &cr), Err(ConvertError::UnsupportedFormat)));
}

#[test]
fn short_plane_data_is_refused() {
    let y = plane(2, 2, 2, vec![0; 3]);
    let cb = plane(1, 1, 1, vec![0]);
    let cr = plane(1, 1, 1, vec![0]);
    assert!(matches!(pack_yuv420(2, 2, &y, &cb, &cr), Err(ConvertError::UnsupportedFormat)));
}

#[test]
fn ten_bit_planes_are_refused() {
    let mut y = plane(1, 1, 2, vec![0, 0]);
    y.storage_bits = 16;
    let cb = plane(1, 1, 1, vec![0]);
    let cr = plane(1, 1, 1, vec![0]);
    assert!(matches!(pack_yuv420(1, 1, &y, &cb, &cr), Err(ConvertError::UnsupportedFormat)));
}

fn inverted() -> [u8; 256] {
    let mut lut = [0u8; 256];
    for (i, v) in lut.iter_mut().enumerate() {
        *v = 255 - i as u8;
    }
    lut
}

#[test]
fn gainmap_is_remapped_and_packed() {
    let g = plane(2, 2, 3, vec![0, 255, 7, 10, 20, 7]);
    let out = remap_gainmap(&g, &inverted()).unwrap();
    assert_eq!(out, vec![255, 0, 245, 235]);
}

#[test]
fn one_pixel_gainmap() {
    let g = plane(1, 1, 1, vec![128]);
    assert_eq!(remap_gainmap(&g, &inverted()).unwrap(), vec![127]);
}

#[test]
fn gainmap_with_wrong_length_is_refused() {
    let g = plane(2, 2, 2, vec![0; 5]);
    assert!(matches!(remap_gainmap(&g, &inverted()), Err(ConvertError::UnsupportedFormat)));
}
