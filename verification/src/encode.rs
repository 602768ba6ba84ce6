//! The encoder: serializes a pixel buffer into a delivery image container
//! (PNG, JPEG, or lossless WebP) and pairs the bytes with the matching
//! declared media type.
//!
//! The containers are produced by the `image` crate behind trusted wrappers;
//! each encoding is a deterministic function of the pixel bytes and the
//! dimensions, which the `*_bytes_of` names stand for. PNG and lossless WebP
//! preserve the pixel data exactly; JPEG is lossy and drops the alpha
//! channel, and is only used when the caller asked for that container.

use vstd::prelude::*;
use vstd::string::*;

use crate::scene::PixelBuffer;

verus! {

/// What PNG-encoding the given RGBA bytes at the given dimensions produces,
/// or nothing when the encoder rejects the input. Deterministic in the
/// arguments alone; the container is lossless.
pub uninterp spec fn png_bytes_of(pixels: Seq<u8>, width: u32, height: u32) -> Option<Seq<u8>>;

/// What JPEG-encoding produces; lossy, alpha dropped. Deterministic in the
/// arguments alone.
pub uninterp spec fn jpeg_bytes_of(pixels: Seq<u8>, width: u32, height: u32) -> Option<Seq<u8>>;

/// What lossless-WebP-encoding produces. Deterministic in the arguments
/// alone.
pub uninterp spec fn webp_bytes_of(pixels: Seq<u8>, width: u32, height: u32) -> Option<Seq<u8>>;

/// The output containers a caller can request.
#[derive(Clone, Copy, Debug, PartialEq, Eq, Structural)]
pub enum ImageFormat {
    Png,
    Jpeg,
    WebpLossless,
}

/// The media type declared for each container.
pub open spec fn media_type_spec(format: ImageFormat) -> Seq<char> {
    match format {
        ImageFormat::Png => "image/png"@,
        ImageFormat::Jpeg => "image/jpeg"@,
        ImageFormat::WebpLossless => "image/webp"@,
    }
}

/// What encoding into the chosen container produces.
pub open spec fn encoded_bytes_of(
    format: ImageFormat,
    pixels: Seq<u8>,
    width: u32,
    height: u32,
) -> Option<Seq<u8>> {
    match format {
        ImageFormat::Png => png_bytes_of(pixels, width, height),
        ImageFormat::Jpeg => jpeg_bytes_of(pixels, width, height),
        ImageFormat::WebpLossless => webp_bytes_of(pixels, width, height),
    }
}

/// The media type string for a container.
pub fn media_type(format: ImageFormat) -> (r: String)
    ensures
        r@ == media_type_spec(format),
{
    match format {
        ImageFormat::Png => String::from_str("image/png"),
        ImageFormat::Jpeg => String::from_str("image/jpeg"),
        ImageFormat::WebpLossless => String::from_str("image/webp"),
    }
}

/// An immutable finished image: the container bytes and the media type they
/// were encoded as. The media type always matches the container.
pub struct OutputImage {
    bytes: Vec<u8>,
    media_type: String,
}

/// The buffer could not be encoded into the requested container. Fatal to
/// the request; no truncated or blank image is returned in its place.
#[derive(Debug)]
pub struct EncodeError {
    pub reason: String,
}

/// Relies on image::RgbaImage::from_raw and image::DynamicImage::write_to
/// with the PNG container: a lossless encode of the RGBA bytes, a function
/// of the pixels and dimensions alone.
#[verifier::external_body]
fn encode_png_raw(pixels: &Vec<u8>, width: u32, height: u32) -> (r: Option<Vec<u8>>)
    requires
        pixels@.len() == 4 * width * height,
    ensures
        r.is_some() == png_bytes_of(pixels@, width, height).is_some(),
        r matches Some(b) ==> png_bytes_of(pixels@, width, height) == Some(b@),
{
    let img = image::RgbaImage::from_raw(width, height, pixels.clone())?;
    let mut out = std::io::Cursor::new(Vec::new());
    image::DynamicImage::ImageRgba8(img).write_to(&mut out, image::ImageFormat::Png).ok()?;
    Some(out.into_inner())
}

/// Relies on image::RgbaImage::from_raw and image::DynamicImage::write_to
/// with the JPEG container, which converts the alpha channel away before the
/// lossy encode: a function of the pixels and dimensions alone.
#[verifier::external_body]
fn encode_jpeg_raw(pixels: &Vec<u8>, width: u32, height: u32) -> (r: Option<Vec<u8>>)
    requires
        pixels@.len() == 4 * width * height,
    ensures
        r.is_some() == jpeg_bytes_of(pixels@, width, height).is_some(),
        r matches Some(b) ==> jpeg_bytes_of(pixels@, width, height) == Some(b@),
{
    let img = image::RgbaImage::from_raw(width, height, pixels.clone())?;
    let mut out = std::io::Cursor::new(Vec::new());
    image::DynamicImage::ImageRgba8(img).write_to(&mut out, image::ImageFormat::Jpeg).ok()?;
    Some(out.into_inner())
}

/// Relies on image::RgbaImage::from_raw and image::DynamicImage::write_to
/// with the WebP container, whose encoder in this crate is lossless-only: a
/// function of the pixels and dimensions alone.
#[verifier::external_body]
fn encode_webp_raw(pixels: &Vec<u8>, width: u32, height: u32) -> (r: Option<Vec<u8>>)
    requires
        pixels@.len() == 4 * width * height,
    ensures
        r.is_some() == webp_bytes_of(pixels@, width, height).is_some(),
        r matches Some(b) ==> webp_bytes_of(pixels@, width, height) == Some(b@),
{
    let img = image::RgbaImage::from_raw(width, height, pixels.clone())?;
    let mut out = std::io::Cursor::new(Vec::new());
    image::DynamicImage::ImageRgba8(img).write_to(&mut out, image::ImageFormat::WebP).ok()?;
    Some(out.into_inner())
}

impl OutputImage {
    /// The container bytes.
    pub closed spec fn bytes_view(&self) -> Seq<u8> {
        self.bytes@
    }

    /// The declared media type.
    pub closed spec fn media_type_view(&self) -> Seq<char> {
        self.media_type@
    }

    /// The container bytes.
    pub fn bytes(&self) -> (r: &Vec<u8>)
        ensures
            r@ == self.bytes_view(),
    {
        &self.bytes
    }

    /// Gives up the container bytes.
    pub fn into_bytes(self) -> (r: Vec<u8>)
        ensures
            r@ == self.bytes_view(),
    {
        self.bytes
    }

    /// The declared media type.
    pub fn media_type(&self) -> (r: &String)
        ensures
            r@ == self.media_type_view(),
    {
        &self.media_type
    }
}

/// Encodes a pixel buffer into the chosen container, pairing the bytes with
/// the matching declared media type so the caller never mismatches the two.
pub fn encode(buffer: &PixelBuffer, format: ImageFormat) -> (r: Result<OutputImage, EncodeError>)
    requires
        buffer.wf(),
    ensures
        r.is_ok() == encoded_bytes_of(
            format,
            buffer.data_view(),
            buffer.width_view(),
            buffer.height_view(),
        ).is_some(),
        r matches Ok(img) ==> {
            &&& encoded_bytes_of(
                format,
                buffer.data_view(),
                buffer.width_view(),
                buffer.height_view(),
            ) == Some(img.bytes_view())
            &&& img.media_type_view() == media_type_spec(format)
        },
{
    let width = buffer.width();
    let height = buffer.height();
    let encoded: Option<Vec<u8>> = match format {
        ImageFormat::Png => encode_png_raw(buffer.data(), width, height),
        ImageFormat::Jpeg => encode_jpeg_raw(buffer.data(), width, height),
        ImageFormat::WebpLossless => encode_webp_raw(buffer.data(), width, height),
    };
    match encoded {
        Some(bytes) => Ok(OutputImage { bytes, media_type: media_type(format) }),
        None => Err(EncodeError { reason: String::from_str("container encoding refused") }),
    }
}

} // verus!
