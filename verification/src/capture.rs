//! The transcode stage of the capture reader: one raw motion-JPEG frame in,
//! one H.264 unit out. The blocking device read happens outside; what it
//! yields is decoded, checked against the configured mode, converted to the
//! encoder's colorspace and encoded here, with the outside calls behind
//! trusted declarations.

use vstd::prelude::*;

use crate::errors::{DeviceError, ReadError};
use crate::mode::CameraMode;

verus! {

/// Declares openh264's stateful encoder so it can sit in a field; its
/// insides stay opaque.
#[verifier::external_type_specification]
#[verifier::external_body]
pub struct ExEncoder(openh264::encoder::Encoder);

/// Declares openh264's YUV frame buffer, carried whole from the colorspace
/// conversion into the encoder.
#[verifier::external_type_specification]
#[verifier::external_body]
pub struct ExYUVBuffer(openh264::formats::YUVBuffer);

/// What decoding yields on the given bytes: the pixel buffer, or nothing
/// when the bytes are not a decodable image. The decoder picks its code
/// path by runtime CPU detection, and the vectorized paths may round
/// pixels slightly differently than the scalar one — so this name stands
/// for the result as fixed within one process, not across machines.
pub uninterp spec fn jpeg_decode_of(data: Seq<u8>) -> Option<Seq<u8>>;

/// Relies on jpeg_decoder::Decoder::decode: whether the bytes decode, and
/// to which pixel buffer, is a function of the bytes alone for any one
/// process (see `jpeg_decode_of` on the machine caveat).
#[verifier::external_body]
fn decode_jpeg(data: &[u8]) -> (r: Result<Vec<u8>, ReadError>)
    ensures
        r is Ok <==> jpeg_decode_of(data@) is Some,
        r is Ok ==> jpeg_decode_of(data@) == Some(r->Ok_0@),
        r is Err ==> r->Err_0 == ReadError::DecodeFailed,
{
    let mut decoder = jpeg_decoder::Decoder::new(data);
    decoder.decode().map_err(|_| ReadError::DecodeFailed)
}

/// Relies on openh264::formats::YUVBuffer::from_rgb_source over an
/// RgbSliceU8: converts one RGB24 pixel buffer to the encoder's YUV layout.
/// Both panic unless the buffer length matches the dimensions and the
/// dimensions are even, so exactly that is required here.
#[verifier::external_body]
fn rgb_to_yuv(data: &[u8], width: usize, height: usize) -> (r: openh264::formats::YUVBuffer)
    requires
        data@.len() == width * height * 3,
        width % 2 == 0,
        height % 2 == 0,
{
    openh264::formats::YUVBuffer::from_rgb_source(
        openh264::formats::RgbSliceU8::new(data, (width, height)),
    )
}

/// Relies on openh264::encoder::Encoder::new: yields a fresh encoder with
/// default settings, or the underlying library's error indication.
#[verifier::external_body]
fn new_encoder() -> (r: Result<openh264::encoder::Encoder, DeviceError>)
    ensures
        r is Err ==> r->Err_0 == DeviceError::EncoderInitFailed,
{
    openh264::encoder::Encoder::new().map_err(|_| DeviceError::EncoderInitFailed)
}

/// Relies on openh264::encoder::Encoder::encode: the bitstream depends on
/// the encoder's accumulated state, so nothing is assumed of the bytes;
/// only the error mapping is fixed.
#[verifier::external_body]
fn encode_yuv(
    encoder: &mut openh264::encoder::Encoder,
    yuv: &openh264::formats::YUVBuffer,
) -> (r: Result<Vec<u8>, ReadError>)
    ensures
        r is Err ==> r->Err_0 == ReadError::EncodeFailed,
{
    match encoder.encode(yuv) {
        Ok(bitstream) => Ok(bitstream.to_vec()),
        Err(_) => Err(ReadError::EncodeFailed),
    }
}

/// The per-worker transcoder: holds the stateful H.264 encoder and the
/// frame size of the mode the device was configured into.
pub struct FrameTranscoder {
    pub encoder: openh264::encoder::Encoder,
    pub width: u32,
    pub height: u32,
}

impl FrameTranscoder {
    /// Builds the encoder for one capture mode. The device itself was
    /// already configured into that mode by the caller.
    pub fn new(mode: &CameraMode) -> (r: Result<FrameTranscoder, DeviceError>)
        ensures
            match r {
                Ok(t) => t.width == mode.width && t.height == mode.height,
                Err(e) => e == DeviceError::EncoderInitFailed,
            },
    {
        match new_encoder() {
            Ok(encoder) => Ok(
                FrameTranscoder { encoder, width: mode.width, height: mode.height },
            ),
            Err(e) => Err(e),
        }
    }

    /// Whether a decoded pixel buffer fits this transcoder's frame size:
    /// one RGB24 triple per pixel, and even dimensions as the colorspace
    /// conversion demands.
    pub open spec fn pixels_fit(self, pixels: Seq<u8>) -> bool {
        &&& pixels.len() == self.width * self.height * 3
        &&& self.width % 2 == 0
        &&& self.height % 2 == 0
    }

    /// One frame through the pipeline: decode the motion-JPEG bytes, check
    /// the pixel buffer against the configured frame size, convert to YUV,
    /// encode. Undecodable bytes and ill-sized buffers are rejected exactly;
    /// whether the encoder itself accepts the frame is its own affair.
    pub fn transcode(&mut self, raw: &[u8]) -> (r: Result<Vec<u8>, ReadError>)
        ensures
            final(self).width == old(self).width,
            final(self).height == old(self).height,
            (jpeg_decode_of(raw@) is None) <==> r == Err::<Vec<u8>, ReadError>(
                ReadError::DecodeFailed,
            ),
            (jpeg_decode_of(raw@) matches Some(p) && !old(self).pixels_fit(p)) <==> r == Err::<
                Vec<u8>,
                ReadError,
            >(ReadError::DimensionMismatch),
            (jpeg_decode_of(raw@) matches Some(p) && old(self).pixels_fit(p)) ==> (r is Ok || r
                == Err::<Vec<u8>, ReadError>(ReadError::EncodeFailed)),
    {
        let pixels = match decode_jpeg(raw) {
            Ok(p) => p,
            Err(e) => {
                return Err(e);
            },
        };
        if self.width % 2 != 0 || self.height % 2 != 0 {
            return Err(ReadError::DimensionMismatch);
        }
        if pixels.len() % 3 != 0 {
            return Err(ReadError::DimensionMismatch);
        }
        let per_pixel: usize = pixels.len() / 3;
        let wu: u64 = self.width as u64;
        let hu: u64 = self.height as u64;
        proof {
            assert(wu * hu <= 0xFFFF_FFFFu64 * 0xFFFF_FFFFu64) by (nonlinear_arith)
                requires
                    wu <= 0xFFFF_FFFFu64,
                    hu <= 0xFFFF_FFFFu64,
            ;
        }
        if (per_pixel as u64) != wu * hu {
            return Err(ReadError::DimensionMismatch);
        }
        let w: usize = self.width as usize;
        let h: usize = self.height as usize;
        proof {
            assert(pixels@.len() == 3 * per_pixel);
            assert(pixels@.len() == w * h * 3);
        }
        let yuv = rgb_to_yuv(pixels.as_slice(), w, h);
        encode_yuv(&mut self.encoder, &yuv)
    }
}

} // verus!
