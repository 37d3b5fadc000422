use base64::Engine;
use screen_capture::codec::{
    capture_payload, encode_still, encode_stream, still_payload, stream_payload, ContainerFormat,
    Quality, STREAM_QUALITY,
};
use screen_capture::transport::{decode_payload, encode_payload};
use screen_capture::error::CaptureError;
use screen_capture::frame::RawFrame;
use std::io::Cursor;

fn gradient(width: u32, height: u32) -> Vec<u8> {
    let mut pixels = Vec::new();
    let mut y: u32 = 0;
    while y < height {
        let mut x: u32 = 0;
        while x < width {
            pixels.push((x * 7 % 256) as u8);
            pixels.push((y * 11 % 256) as u8);
            pixels.push(((x + y) * 3 % 256) as u8);
            pixels.push(((x * y) % 256) as u8);
            x += 1;
        }
        y += 1;
    }
    pixels
}

fn level(value: u8) -> Quality {
    Quality::new(value).unwrap()
}

fn unwrap_base64(payload: &str) -> Vec<u8> {
    base64::engine::general_purpose::STANDARD.decode(payload).unwrap()
}

#[test]
fn standard_quality_is_ninety() {
    assert_eq!(STREAM_QUALITY, 90);
    assert_eq!(Quality::standard().level(), STREAM_QUALITY);
}

#[test]
fn frame_needs_four_bytes_per_pixel() {
    assert!(RawFrame::new(2, 3, vec![0; 24]).is_some());
    assert!(RawFrame::new(2, 3, vec![0; 23]).is_none());
    assert!(RawFrame::new(2, 3, vec![0; 25]).is_none());
    assert!(RawFrame::new(0, 3, Vec::new()).is_some());
    assert!(RawFrame::new(0, 0, vec![0; 4]).is_none());
    assert!(RawFrame::new(u32::MAX, u32::MAX, vec![0; 4]).is_none());
}

#[test]
fn frame_keeps_what_it_was_made_of() {
    let pixels = gradient(3, 2);
    let frame = RawFrame::new(3, 2, pixels.clone()).unwrap();
    assert_eq!(frame.width(), 3);
    assert_eq!(frame.height(), 2);
    assert_eq!(frame.pixels(), &pixels);
    assert_eq!(frame.clone(), frame);
}

#[test]
fn rgb_drops_every_alpha_byte() {
    let frame = RawFrame::new(2, 1, vec![1, 2, 3, 4, 5, 6, 7, 8]).unwrap();
    assert_eq!(frame.to_rgb8(), vec![1, 2, 3, 5, 6, 7]);
    let empty = RawFrame::new(0, 0, Vec::new()).unwrap();
    assert_eq!(empty.to_rgb8(), Vec::<u8>::new());
}

#[test]
fn rgb_agrees_with_the_image_crate() {
    let pixels = gradient(17, 9);
    let frame = RawFrame::new(17, 9, pixels.clone()).unwrap();
    let theirs = image::DynamicImage::ImageRgba8(image::RgbaImage::from_raw(17, 9, pixels).unwrap())
        .to_rgb8()
        .into_raw();
    assert_eq!(frame.to_rgb8(), theirs);
}

#[test]
fn base64_of_known_texts() {
    assert_eq!(encode_payload(&Vec::new()), "");
    assert_eq!(encode_payload(&b"f".to_vec()), "Zg==");
    assert_eq!(encode_payload(&b"fo".to_vec()), "Zm8=");
    assert_eq!(encode_payload(&b"foo".to_vec()), "Zm9v");
    assert_eq!(encode_payload(&b"foob".to_vec()), "Zm9vYg==");
    assert_eq!(encode_payload(&b"fooba".to_vec()), "Zm9vYmE=");
    assert_eq!(encode_payload(&b"foobar".to_vec()), "Zm9vYmFy");
    assert_eq!(encode_payload(&vec![0xfb, 0xff]), "+/8=");
    assert_eq!(encode_payload(&vec![0x00, 0x10, 0x83, 0xff]), "ABCD/w==");
}

#[test]
fn base64_decodes_what_it_encoded() {
    let mut bytes = Vec::new();
    let mut n: u32 = 0;
    while n < 700 {
        bytes.push((n * 37 % 256) as u8);
        assert_eq!(decode_payload(&encode_payload(&bytes)), Ok(bytes.clone()));
        n += 1;
    }
}

#[test]
fn base64_of_known_payloads_decodes() {
    assert_eq!(decode_payload(""), Ok(Vec::new()));
    assert_eq!(decode_payload("Zg=="), Ok(b"f".to_vec()));
    assert_eq!(decode_payload("Zm9vYmE="), Ok(b"fooba".to_vec()));
    assert_eq!(decode_payload("+/8="), Ok(vec![0xfb, 0xff]));
}

fn is_invalid_payload(text: &str) -> bool {
    matches!(decode_payload(text), Err(CaptureError::InvalidPayload(_)))
}

#[test]
fn text_that_encodes_nothing_is_refused() {
    assert!(is_invalid_payload("Zg"));
    assert!(is_invalid_payload("Zg="));
    assert!(is_invalid_payload("Zh=="));
    assert!(is_invalid_payload("Zm9="));
    assert!(is_invalid_payload("Zm9v\n"));
    assert!(is_invalid_payload(" Zm9v"));
    assert!(is_invalid_payload("Zm9v===="));
    assert!(is_invalid_payload("===="));
    assert!(is_invalid_payload("Z"));
    assert!(is_invalid_payload("Zg==Zg=="));
    assert!(is_invalid_payload("-_8="));
    assert!(is_invalid_payload("not base64!"));
    assert!(is_invalid_payload("Zm9\u{e9}"));
}

#[test]
fn refused_payload_has_a_message() {
    let error = decode_payload("Zg").unwrap_err();
    assert!(!error.message().is_empty());
}

#[test]
fn still_payload_is_a_png_of_the_same_pixels() {
    let pixels = gradient(13, 7);
    let frame = RawFrame::new(13, 7, pixels.clone()).unwrap();
    let payload = still_payload(&frame).unwrap();
    let png = unwrap_base64(&payload);
    assert_eq!(&png[0..8], &[0x89, b'P', b'N', b'G', 0x0d, 0x0a, 0x1a, 0x0a]);
    let decoded = image::load_from_memory(&png).unwrap();
    assert_eq!(decoded.width(), 13);
    assert_eq!(decoded.height(), 7);
    assert_eq!(decoded.color(), image::ColorType::Rgba8);
    assert_eq!(decoded.to_rgba8().into_raw(), pixels);
}

#[test]
fn still_payload_is_what_writing_the_image_gives() {
    let pixels = gradient(20, 20);
    let frame = RawFrame::new(20, 20, pixels.clone()).unwrap();
    let mut buffer = Vec::new();
    image::DynamicImage::ImageRgba8(image::RgbaImage::from_raw(20, 20, pixels).unwrap())
        .write_to(&mut Cursor::new(&mut buffer), image::ImageFormat::Png)
        .unwrap();
    let expected = base64::engine::general_purpose::STANDARD.encode(&buffer);
    assert_eq!(still_payload(&frame), Ok(expected));
}

#[test]
fn still_payload_is_the_same_each_time() {
    let frame = RawFrame::new(9, 4, gradient(9, 4)).unwrap();
    assert_eq!(still_payload(&frame), still_payload(&frame));
}

#[test]
fn stream_payload_is_a_jpeg_of_the_same_size() {
    let frame = RawFrame::new(33, 18, gradient(33, 18)).unwrap();
    let payload = stream_payload(&frame, Quality::standard()).unwrap();
    let jpeg = unwrap_base64(&payload);
    assert_eq!(&jpeg[0..2], &[0xff, 0xd8]);
    assert_eq!(&jpeg[jpeg.len() - 2..], &[0xff, 0xd9]);
    let decoded = image::load_from_memory(&jpeg).unwrap();
    assert_eq!(decoded.width(), 33);
    assert_eq!(decoded.height(), 18);
}

#[test]
fn stream_payload_is_what_the_encoder_gives_for_the_colour_bytes() {
    let pixels = gradient(16, 8);
    let frame = RawFrame::new(16, 8, pixels.clone()).unwrap();
    let rgb = image::DynamicImage::ImageRgba8(image::RgbaImage::from_raw(16, 8, pixels).unwrap())
        .to_rgb8();
    let mut buffer = Vec::new();
    image::codecs::jpeg::JpegEncoder::new_with_quality(&mut Cursor::new(&mut buffer), 90)
        .encode(&rgb, 16, 8, image::ExtendedColorType::Rgb8)
        .unwrap();
    let expected = base64::engine::general_purpose::STANDARD.encode(&buffer);
    assert_eq!(stream_payload(&frame, level(90)), Ok(expected));
}

#[test]
fn stream_payload_ignores_alpha() {
    let opaque = RawFrame::new(1, 1, vec![10, 20, 30, 255]).unwrap();
    let clear = RawFrame::new(1, 1, vec![10, 20, 30, 0]).unwrap();
    assert_eq!(stream_payload(&opaque, level(90)), stream_payload(&clear, level(90)));
    assert_ne!(still_payload(&opaque), still_payload(&clear));
}

#[test]
fn stream_payload_depends_on_quality() {
    let frame = RawFrame::new(32, 32, gradient(32, 32)).unwrap();
    let fine = stream_payload(&frame, level(95)).unwrap();
    let coarse = stream_payload(&frame, level(10)).unwrap();
    assert!(coarse.len() < fine.len());
}

#[test]
fn frame_without_area_has_no_jpeg() {
    let flat = RawFrame::new(0, 5, Vec::new()).unwrap();
    assert!(matches!(stream_payload(&flat, level(90)), Err(CaptureError::Encode(_))));
    let thin = RawFrame::new(5, 0, Vec::new()).unwrap();
    assert!(matches!(stream_payload(&thin, level(90)), Err(CaptureError::Encode(_))));
}

#[test]
fn frame_wider_than_jpeg_allows_has_no_jpeg() {
    let wide = RawFrame::new(65536, 1, vec![0; 65536 * 4]).unwrap();
    let error = stream_payload(&wide, level(90)).unwrap_err();
    assert!(matches!(error, CaptureError::Encode(_)));
    assert!(!error.message().is_empty());
    let widest = RawFrame::new(65535, 1, vec![0; 65535 * 4]).unwrap();
    assert!(stream_payload(&widest, level(90)).is_ok());
    let highest = RawFrame::new(1, 65535, vec![0; 65535 * 4]).unwrap();
    assert!(encode_stream(&highest, level(1)).is_ok());
    let higher = RawFrame::new(1, 65536, vec![0; 65536 * 4]).unwrap();
    assert!(encode_stream(&higher, level(100)).is_err());
}

#[test]
fn capture_payload_of_a_frame_is_its_still_payload() {
    let frame = RawFrame::new(4, 4, gradient(4, 4)).unwrap();
    let expected = still_payload(&frame);
    assert_eq!(capture_payload(Ok(frame)), expected);
}

#[test]
fn capture_payload_of_a_failed_capture_is_the_failure() {
    let res = capture_payload(Err("screen asleep".to_string()));
    assert_eq!(res, Err(CaptureError::Capture("screen asleep".to_string())));
    assert_eq!(res.unwrap_err().message(), "screen asleep");
}

#[test]
fn saved_bytes_are_what_was_captured() {
    let frame = RawFrame::new(6, 5, gradient(6, 5)).unwrap();
    let payload = still_payload(&frame).unwrap();
    let bytes = decode_payload(&payload).unwrap();
    assert_eq!(encode_payload(&bytes), payload);
}

#[test]
fn every_frame_of_jpeg_size_has_a_jpeg() {
    for (width, height) in [(1, 1), (1, 9), (9, 1), (7, 7), (8, 8), (9, 9), (64, 3), (3, 64)] {
        for value in [1, 50, 90, 100] {
            let frame = RawFrame::new(width, height, gradient(width, height)).unwrap();
            let file = encode_stream(&frame, level(value)).unwrap();
            let decoded = image::load_from_memory(file.bytes()).unwrap();
            assert_eq!((decoded.width(), decoded.height()), (width, height));
        }
    }
    let noisy: Vec<u8> = (0..64u32 * 64 * 4).map(|n| (n.wrapping_mul(2654435761) >> 24) as u8).collect();
    let frame = RawFrame::new(64, 64, noisy).unwrap();
    assert!(encode_stream(&frame, level(100)).is_ok());
}

#[test]
fn encoded_still_is_a_png_file() {
    let frame = RawFrame::new(5, 3, gradient(5, 3)).unwrap();
    let file = encode_still(&frame).unwrap();
    assert_eq!(file.format(), ContainerFormat::Png);
    assert_eq!(&file.bytes()[1..4], b"PNG");
    assert_eq!(file.payload(), still_payload(&frame).unwrap());
    assert_eq!(file.payload(), encode_payload(file.bytes()));
    assert_eq!(file.clone(), file);
}

#[test]
fn encoded_stream_frame_is_a_jpeg_file() {
    let frame = RawFrame::new(5, 3, gradient(5, 3)).unwrap();
    let file = encode_stream(&frame, Quality::standard()).unwrap();
    assert_eq!(file.format(), ContainerFormat::Jpeg);
    assert_eq!(&file.bytes()[0..3], &[0xff, 0xd8, 0xff]);
    assert_eq!(file.payload(), stream_payload(&frame, Quality::standard()).unwrap());
    let decoded = image::load_from_memory(file.bytes()).unwrap();
    assert_eq!((decoded.width(), decoded.height()), (5, 3));
}

#[test]
fn still_of_a_frame_without_area_agrees_with_the_image_crate() {
    let frame = RawFrame::new(0, 0, Vec::new()).unwrap();
    let mut buffer = Vec::new();
    let theirs = image::DynamicImage::ImageRgba8(image::RgbaImage::from_raw(0, 0, Vec::new()).unwrap())
        .write_to(&mut Cursor::new(&mut buffer), image::ImageFormat::Png);
    match encode_still(&frame) {
        Ok(file) => {
            assert!(theirs.is_ok());
            assert_eq!(file.bytes(), &buffer);
        }
        Err(error) => {
            assert!(theirs.is_err());
            assert!(matches!(error, CaptureError::Encode(_)));
        }
    }
}
