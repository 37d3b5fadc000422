//! Image containers: still pictures are written as PNG, stream frames as
//! JPEG, both by the `image` crate. This module states what it takes from
//! that crate.

use vstd::prelude::*;
use crate::error::{CaptureError, CaptureErrorView};
use crate::frame::{RawFrame, RawFrameView, drop_alpha};
use crate::transport::{base64_text, encode_payload};

verus! {

/// The JPEG quality of stream frames unless a caller chooses another.
pub const STREAM_QUALITY: u8 = 90;

/// A JPEG quality level from 1 to 100.
#[derive(Clone, Copy, Debug, PartialEq, Eq)]
pub struct Quality {
    level: u8,
}

impl Quality {
    #[verifier::type_invariant]
    spec fn in_range(self) -> bool {
        1 <= self.level <= 100
    }

    /// The level as a number.
    pub closed spec fn value(self) -> u8 {
        self.level
    }

    /// Makes a quality level, or nothing where `level` is not in 1 to 100.
    pub fn new(level: u8) -> (res: Option<Quality>)
        ensures
            res is Some <==> 1 <= level <= 100,
            res matches Some(quality) ==> quality.value() == level,
    {
        if 1 <= level && level <= 100 {
            Some(Quality { level })
        } else {
            None
        }
    }

    /// The quality of stream frames where nothing else is configured.
    pub fn standard() -> (res: Quality)
        ensures
            res.value() == STREAM_QUALITY,
    {
        Quality { level: STREAM_QUALITY }
    }

    /// The level as a number.
    pub fn level(&self) -> (res: u8)
        ensures
            res == self.value(),
            1 <= res <= 100,
    {
        proof {
            use_type_invariant(self);
        }
        self.level
    }
}

/// The image container a frame was written as.
#[derive(Clone, Copy, Debug, PartialEq, Eq)]
pub enum ContainerFormat {
    /// Lossless, with alpha: the container of still pictures.
    Png,
    /// Lossy, without alpha: the container of stream frames.
    Jpeg,
}

/// A frame written as an image file, ready for the way to the user
/// interface. It is made by [`encode_still`] or [`encode_stream`] and never
/// changes.
#[derive(Clone, Debug, PartialEq, Eq)]
pub struct EncodedFrame {
    format: ContainerFormat,
    bytes: Vec<u8>,
}

/// [`EncodedFrame`] as contracts see it.
pub struct EncodedFrameView {
    pub format: ContainerFormat,
    pub bytes: Seq<u8>,
}

impl View for EncodedFrame {
    type V = EncodedFrameView;

    closed spec fn view(&self) -> EncodedFrameView {
        EncodedFrameView { format: self.format, bytes: self.bytes@ }
    }
}

#[verifier::external_type_specification]
#[verifier::external_body]
pub struct ExImageError(image::ImageError);

/// The PNG file that the `image` crate writes for `width` by `height` RGBA
/// pixels, or `None` where it refuses to write one.
pub uninterp spec fn png_encoding(rgba: Seq<u8>, width: u32, height: u32) -> Option<Seq<u8>>;

/// The JPEG file that the `image` crate writes for `width` by `height` RGB
/// pixels at the given quality, or `None` where it refuses to write one.
pub uninterp spec fn jpeg_encoding(rgb: Seq<u8>, width: u32, height: u32, quality: u8) -> Option<
    Seq<u8>,
>;

/// Whether a picture of this size can be written as JPEG: both sides are
/// between 1 and 65535 pixels.
pub open spec fn jpeg_sized(width: u32, height: u32) -> bool {
    1 <= width <= 65535 && 1 <= height <= 65535
}

/// Calls `image::write_buffer_with_format` for PNG on RGBA bytes, writing
/// into memory.
///
/// Trusted: the outcome is a function of the arguments alone, named
/// [`png_encoding`]. The call panics on a buffer of another length than
/// `4 * width * height`, which `requires` rules out.
#[verifier::external_body]
fn png_encode(rgba: &Vec<u8>, width: u32, height: u32) -> (res: Result<Vec<u8>, image::ImageError>)
    requires
        rgba@.len() == 4 * width * height,
    ensures
        res matches Ok(bytes) ==> png_encoding(rgba@, width, height) == Some(bytes@),
        res is Err ==> png_encoding(rgba@, width, height) is None,
{
    let mut buffer = Vec::new();
    image::write_buffer_with_format(
        &mut std::io::Cursor::new(&mut buffer),
        rgba,
        width,
        height,
        image::ExtendedColorType::Rgba8,
        image::ImageFormat::Png,
    )?;
    Ok(buffer)
}

/// Calls `JpegEncoder::new_with_quality` and `JpegEncoder::encode` of the
/// `image` crate on RGB bytes, writing into memory.
///
/// Trusted: the outcome is a function of the arguments alone, named
/// [`jpeg_encoding`]. The encoder refuses a picture with a side of zero or
/// of more than 65535 pixels; its other failures are those of its writer,
/// and writing into memory has none, so it writes every other picture. The
/// call panics on a buffer of another length than `3 * width * height`,
/// which `requires` rules out.
#[verifier::external_body]
fn jpeg_encode(rgb: &Vec<u8>, width: u32, height: u32, quality: u8) -> (res: Result<
    Vec<u8>,
    image::ImageError,
>)
    requires
        rgb@.len() == 3 * width * height,
    ensures
        res matches Ok(bytes) ==> jpeg_encoding(rgb@, width, height, quality) == Some(bytes@),
        res is Err ==> jpeg_encoding(rgb@, width, height, quality) is None,
        res is Ok <==> jpeg_sized(width, height),
{
    let mut buffer = Vec::new();
    image::codecs::jpeg::JpegEncoder::new_with_quality(
        &mut std::io::Cursor::new(&mut buffer),
        quality,
    ).encode(rgb, width, height, image::ExtendedColorType::Rgb8)?;
    Ok(buffer)
}

/// Calls `to_string` on an `image::ImageError`. Nothing is claimed of the
/// wording.
#[verifier::external_body]
fn image_error_text(error: &image::ImageError) -> String {
    error.to_string()
}

/// A frame as a still picture: its PNG file, or `None` where no PNG file can
/// be written.
pub open spec fn still_encoding_of(frame: RawFrameView) -> Option<EncodedFrameView> {
    match png_encoding(frame.pixels, frame.width, frame.height) {
        Some(png) => Some(EncodedFrameView { format: ContainerFormat::Png, bytes: png }),
        None => None,
    }
}

/// A frame as a stream frame: the JPEG file of its colour bytes, or `None`
/// where no JPEG file can be written.
pub open spec fn stream_encoding_of(frame: RawFrameView, quality: Quality) -> Option<
    EncodedFrameView,
> {
    match jpeg_encoding(drop_alpha(frame.pixels), frame.width, frame.height, quality.value()) {
        Some(jpeg) => Some(EncodedFrameView { format: ContainerFormat::Jpeg, bytes: jpeg }),
        None => None,
    }
}

/// The payload of a still picture: its PNG file in base64.
pub open spec fn still_payload_of(frame: RawFrameView) -> Option<Seq<char>> {
    match still_encoding_of(frame) {
        Some(encoded) => Some(base64_text(encoded.bytes)),
        None => None,
    }
}

/// The payload of a stream frame: its JPEG file in base64.
pub open spec fn stream_payload_of(frame: RawFrameView, quality: Quality) -> Option<Seq<char>> {
    match stream_encoding_of(frame, quality) {
        Some(encoded) => Some(base64_text(encoded.bytes)),
        None => None,
    }
}

impl EncodedFrame {
    /// The container the bytes are written in.
    pub fn format(&self) -> (res: ContainerFormat)
        ensures
            res == self@.format,
    {
        self.format
    }

    /// The bytes of the image file.
    pub fn bytes(&self) -> (res: &Vec<u8>)
        ensures
            res@ == self@.bytes,
    {
        &self.bytes
    }

    /// The image file in base64, as it crosses to the user interface.
    pub fn payload(&self) -> (res: String)
        ensures
            res@ == base64_text(self@.bytes),
    {
        encode_payload(&self.bytes)
    }
}

/// Encodes a frame as a still picture: lossless PNG, alpha kept.
pub fn encode_still(frame: &RawFrame) -> (res: Result<EncodedFrame, CaptureError>)
    ensures
        match still_encoding_of(frame@) {
            Some(encoded) => res matches Ok(file) && file@ == encoded,
            None => res matches Err(e) && e@ == CaptureErrorView::Encode,
        },
{
    let width = frame.width();
    let height = frame.height();
    match png_encode(frame.pixels(), width, height) {
        Ok(bytes) => Ok(EncodedFrame { format: ContainerFormat::Png, bytes }),
        Err(error) => Err(CaptureError::Encode(image_error_text(&error))),
    }
}

/// Encodes a frame for the stream: alpha dropped, lossy JPEG at `quality`.
///
/// Succeeds on every frame whose sides are between 1 and 65535 pixels, and
/// on no other: such a frame has no JPEG file.
pub fn encode_stream(frame: &RawFrame, quality: Quality) -> (res: Result<
    EncodedFrame,
    CaptureError,
>)
    ensures
        match stream_encoding_of(frame@, quality) {
            Some(encoded) => res matches Ok(file) && file@ == encoded,
            None => res matches Err(e) && e@ == CaptureErrorView::Encode,
        },
        res is Ok <==> jpeg_sized(frame@.width, frame@.height),
{
    let width = frame.width();
    let height = frame.height();
    let rgb = frame.to_rgb8();
    match jpeg_encode(&rgb, width, height, quality.level()) {
        Ok(bytes) => Ok(EncodedFrame { format: ContainerFormat::Jpeg, bytes }),
        Err(error) => Err(CaptureError::Encode(image_error_text(&error))),
    }
}

/// The payload of a frame as a still picture: its PNG file in base64.
pub fn still_payload(frame: &RawFrame) -> (res: Result<String, CaptureError>)
    ensures
        match still_payload_of(frame@) {
            Some(text) => res matches Ok(payload) && payload@ == text,
            None => res matches Err(e) && e@ == CaptureErrorView::Encode,
        },
{
    match encode_still(frame) {
        Ok(file) => Ok(file.payload()),
        Err(error) => Err(error),
    }
}

/// Finishes a one-shot capture: the payload of the captured frame, or the
/// failure of the capture call with its cause.
pub fn capture_payload(capture: Result<RawFrame, String>) -> (res: Result<String, CaptureError>)
    ensures
        match capture {
            Ok(frame) => match still_payload_of(frame@) {
                Some(text) => res matches Ok(payload) && payload@ == text,
                None => res matches Err(e) && e@ == CaptureErrorView::Encode,
            },
            Err(cause) => res matches Err(e) && e@ == CaptureErrorView::Capture(cause@),
        },
{
    match capture {
        Ok(frame) => still_payload(&frame),
        Err(cause) => Err(CaptureError::Capture(cause)),
    }
}

/// The payload of a frame in the stream: its JPEG file in base64. There is
/// one for every frame whose sides are between 1 and 65535 pixels, and for no
/// other.
pub fn stream_payload(frame: &RawFrame, quality: Quality) -> (res: Result<String, CaptureError>)
    ensures
        match stream_payload_of(frame@, quality) {
            Some(text) => res matches Ok(payload) && payload@ == text,
            None => res matches Err(e) && e@ == CaptureErrorView::Encode,
        },
        res is Ok <==> jpeg_sized(frame@.width, frame@.height),
{
    match encode_stream(frame, quality) {
        Ok(file) => Ok(file.payload()),
        Err(error) => Err(error),
    }
}

} // verus!
