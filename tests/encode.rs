use stb_rust::common::{ErrCode, Image};
use stb_rust::image_write::{write_request, write_status, WriteFormat};

#[test]
fn write_request_for_one_pixel() {
    let image = Image::build(vec![1_u8, 1_u8, 1_u8], 1, 1, 3);
    let req = write_request(Some("/tmp/test_png.png"), &image, WriteFormat::Png).unwrap();
    assert_eq!(req.format, WriteFormat::Png);
    assert_eq!(req.path, b"/tmp/test_png.png\0".to_vec());
    assert_eq!(req.width, 1);
    assert_eq!(req.height, 1);
    assert_eq!(req.components, 3);
    assert_eq!(req.stride, 3);
}

#[test]
fn write_request_packed_stride() {
    let image = Image::build(vec![0_u8; 4 * 2 * 4], 4, 2, 4);
    let req = write_request(Some("out.tga"), &image, WriteFormat::Tga).unwrap();
    assert_eq!(req.stride, 16);
    assert_eq!(req.height, 2);
}

#[test]
fn write_request_rejects_mismatched_buffer() {
    let mut image = Image::build(vec![1_u8, 1_u8, 1_u8], 1, 1, 3);
    image.buffer.push(1);
    let err = write_request(Some("out.png"), &image, WriteFormat::Png).unwrap_err();
    assert_eq!(err.code, ErrCode::WriteFailed);
}

#[test]
fn write_request_rejects_oversized_geometry() {
    let mut image = Image::build(Vec::new(), 0, 0, 3);
    image.info.width = 1 << 31;
    let err = write_request(Some("out.png"), &image, WriteFormat::Png).unwrap_err();
    assert_eq!(err.code, ErrCode::WriteFailed);
}

#[test]
fn write_request_path_errors() {
    let image = Image::build(vec![1_u8, 1_u8, 1_u8], 1, 1, 3);
    assert_eq!(write_request(None, &image, WriteFormat::Bmp).unwrap_err().code, ErrCode::InvalidUtf8);
    assert_eq!(write_request(Some("a\0.bmp"), &image, WriteFormat::Bmp).unwrap_err().code, ErrCode::FileNotExist);
}

#[test]
fn write_status_maps_codes() {
    for format in [WriteFormat::Png, WriteFormat::Jpg(100), WriteFormat::Bmp, WriteFormat::Tga] {
        assert!(write_status(format, 1).is_ok());
        assert_eq!(write_status(format, 0).unwrap_err().code, ErrCode::WriteFailed);
        assert_eq!(write_status(format, -1).unwrap_err().code, ErrCode::WriteFailed);
    }
    assert_eq!(write_status(WriteFormat::Jpg(100), 0).unwrap_err().msg, "write jpg failed");
}

#[test]
fn write_request_keeps_jpeg_quality() {
    let image = Image::build(vec![1_u8, 1_u8, 1_u8], 1, 1, 3);
    let req = write_request(Some("/tmp/test_jpg.jpg"), &image, WriteFormat::Jpg(100)).unwrap();
    assert_eq!(req.format, WriteFormat::Jpg(100));
    let req = write_request(Some("q.jpg"), &image, WriteFormat::Jpg(37)).unwrap();
    assert_eq!(req.format, WriteFormat::Jpg(37));
    assert_eq!(req.stride, 3);
}

#[test]
fn write_request_path_error_messages() {
    let image = Image::build(vec![1_u8, 1_u8, 1_u8], 1, 1, 3);
    assert_eq!(write_request(None, &image, WriteFormat::Png).unwrap_err().msg, "path is not valid utf8");
    let err = write_request(Some("a\0.png"), &image, WriteFormat::Png).unwrap_err();
    assert_eq!(err.msg, "path contains null character");
}
