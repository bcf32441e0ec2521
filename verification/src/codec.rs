//! Writing a bitmap as the bytes of an image file, and the bitmap that
//! comes of decoded pixels. The formats themselves are the work of the
//! `image` crate; here stand the choice of the format, the limits of each
//! format and what becomes of the codec's outcome.

use crate::bitmap::Bitmap;
use crate::buffer::{spec_byte_len, PixelBuffer};
use crate::error::{BitmapError, FromImageError, ImageErrorKind};
use crate::format::{resolve_save_format, spec_name, spec_save_format, AutoPyImageFormat};
use vstd::prelude::*;

verus! {

/// Quality at which JPEG files are written, on the codec's scale to 100.
pub const JPEG_QUALITY: u8 = 100;

/// Largest width and height that the headers of GIF and JPEG files hold.
pub const MAX_SHORT_DIMENSION: u32 = 65535;

/// Bytes that precede the pixels in a BMP file with alpha.
pub const BMP_HEADER_LEN: u32 = 122;

#[verifier::external_type_specification]
#[verifier::external_body]
pub struct ExImageError(image::ImageError);

/// The bytes of the file that the `image` crate writes for the pixels in
/// the format, at the given JPEG quality, or `None` where it gives up.
pub uninterp spec fn encoded_image(
    width: u32,
    height: u32,
    data: Seq<u8>,
    format: AutoPyImageFormat,
    quality: u8,
) -> Option<Seq<u8>>;

/// Calls `DynamicImage::write_to` on an RGBA picture made of the pixels by
/// `ImageBuffer::from_raw`, with a vector as the writer. Trusted: that the
/// outcome depends on the arguments alone. Left out are the dimensions on
/// which the encoders fail an assertion or overflow: a picture without
/// pixels, a GIF or JPEG wider or higher than 65535, and a BMP whose size
/// does not fit 32 bits.
#[verifier::external_body]
fn encode_rgba(width: u32, height: u32, data: &[u8], format: AutoPyImageFormat, quality: u8) -> (res:
    Result<Vec<u8>, image::ImageError>)
    requires
        data@.len() == spec_byte_len(width, height),
        spec_encodable(format, width, height),
    ensures
        res is Ok <==> encoded_image(width, height, data@, format, quality) is Some,
        res is Ok ==> res->Ok_0@ == encoded_image(width, height, data@, format, quality)->Some_0,
{
    let format = match format {
        AutoPyImageFormat::BMP => image::ImageOutputFormat::BMP,
        AutoPyImageFormat::GIF => image::ImageOutputFormat::GIF,
        AutoPyImageFormat::JPEG => image::ImageOutputFormat::JPEG(quality),
        AutoPyImageFormat::PNG => image::ImageOutputFormat::PNG,
        AutoPyImageFormat::Unsupported => image::ImageOutputFormat::Unsupported(String::new()),
    };
    let picture = image::RgbaImage::from_raw(width, height, data.to_vec()).unwrap();
    let mut file: Vec<u8> = Vec::new();
    image::DynamicImage::ImageRgba8(picture).write_to(&mut file, format)?;
    Ok(file)
}

impl FromImageError {
    /// Tells the variants of `image::ImageError` apart and keeps the text
    /// that its `Display` gives. Nothing is claimed of the outcome.
    #[verifier::external_body]
    pub fn from(err: image::ImageError) -> (e: FromImageError) {
        let message = format!("{}", err);
        let kind = match err {
            image::ImageError::FormatError(_) => ImageErrorKind::Format,
            image::ImageError::DimensionError => ImageErrorKind::Dimension,
            image::ImageError::UnsupportedError(_) => ImageErrorKind::Unsupported,
            image::ImageError::UnsupportedColor(_) => ImageErrorKind::UnsupportedColor,
            image::ImageError::NotEnoughData => ImageErrorKind::NotEnoughData,
            image::ImageError::IoError(_) => ImageErrorKind::Io,
            image::ImageError::ImageEnd => ImageErrorKind::ImageEnd,
            image::ImageError::InsufficientMemory => ImageErrorKind::InsufficientMemory,
        };
        FromImageError { kind, message }
    }
}

/// Whether a picture of the given dimensions can be written in the format:
/// it has pixels, its width and height fit the 16-bit fields of a GIF or
/// JPEG header, and its size fits the 32-bit field of a BMP header.
pub open spec fn spec_encodable(format: AutoPyImageFormat, width: u32, height: u32) -> bool {
    &&& width >= 1
    &&& height >= 1
    &&& match format {
        AutoPyImageFormat::PNG => true,
        AutoPyImageFormat::GIF => width <= MAX_SHORT_DIMENSION && height <= MAX_SHORT_DIMENSION,
        AutoPyImageFormat::JPEG => width <= MAX_SHORT_DIMENSION && height <= MAX_SHORT_DIMENSION,
        AutoPyImageFormat::BMP => spec_byte_len(width, height) + BMP_HEADER_LEN <= u32::MAX,
        AutoPyImageFormat::Unsupported => false,
    }
}

/// What encoding a buffer in a format gives: `UnsupportedFormat` for
/// `Unsupported`, `Encode` with an error of dimensions where the format
/// cannot hold the dimensions, else the file that the codec writes, or
/// `Encode` where it gives up.
pub open spec fn spec_encode_result(
    buffer: PixelBuffer,
    format: AutoPyImageFormat,
    res: Result<Vec<u8>, BitmapError>,
) -> bool {
    if format == AutoPyImageFormat::Unsupported {
        res == Err::<Vec<u8>, BitmapError>(BitmapError::UnsupportedFormat)
    } else if !spec_encodable(format, buffer.spec_width(), buffer.spec_height()) {
        res is Err && res->Err_0 is Encode && spec_dimension_error(res->Err_0->Encode_0)
    } else {
        match encoded_image(
            buffer.spec_width(),
            buffer.spec_height(),
            buffer@,
            format,
            JPEG_QUALITY,
        ) {
            Some(file) => res is Ok && res->Ok_0@ == file,
            None => res is Err && res->Err_0 is Encode,
        }
    }
}

/// What saving a buffer gives, for the format that was named and the
/// extension of the path.
pub open spec fn spec_save_result(
    buffer: PixelBuffer,
    format: Option<Seq<char>>,
    extension: Option<Seq<char>>,
    res: Result<Vec<u8>, BitmapError>,
) -> bool {
    match spec_save_format(format, extension) {
        Err(e) => res == Err::<Vec<u8>, BitmapError>(e),
        Ok(f) => spec_encode_result(buffer, f, res),
    }
}

/// The error of a picture whose dimensions a format cannot hold.
pub open spec fn spec_dimension_error(e: FromImageError) -> bool {
    e.kind == ImageErrorKind::Dimension
}

/// The bitmap that comes of a decoder's outcome: the decoded pixels at
/// scale 1, or the decoder's error.
pub open spec fn spec_from_decoded(
    decoded: Result<(u32, u32, Seq<u8>), FromImageError>,
    res: Result<Bitmap, BitmapError>,
) -> bool {
    match decoded {
        Ok((width, height, data)) => if data.len() == spec_byte_len(width, height) {
            &&& res is Ok
            &&& res->Ok_0@.wf()
            &&& res->Ok_0@.spec_width() == width
            &&& res->Ok_0@.spec_height() == height
            &&& res->Ok_0@.spec_scale() == 1
            &&& res->Ok_0@@ == data
        } else {
            &&& res is Err
            &&& res->Err_0 is Decode
            &&& spec_dimension_error(res->Err_0->Decode_0)
        },
        Err(e) => res == Err::<Bitmap, BitmapError>(BitmapError::Decode(e)),
    }
}

/// The view of a decoder's outcome.
pub open spec fn spec_decoded_view(decoded: Result<(u32, u32, Vec<u8>), FromImageError>) -> Result<
    (u32, u32, Seq<u8>),
    FromImageError,
> {
    match decoded {
        Ok((width, height, data)) => Ok((width, height, data@)),
        Err(e) => Err(e),
    }
}

fn dimension_error() -> (e: FromImageError)
    ensures
        spec_dimension_error(e),
{
    FromImageError::new(
        ImageErrorKind::Dimension,
        "The format cannot hold a picture of these dimensions".to_string(),
    )
}

/// Whether a picture of the given dimensions can be written in the format.
pub fn encodable(format: AutoPyImageFormat, width: u32, height: u32) -> (can: bool)
    ensures
        can == spec_encodable(format, width, height),
{
    if width < 1 || height < 1 {
        return false;
    }
    match format {
        AutoPyImageFormat::PNG => true,
        AutoPyImageFormat::GIF => width <= MAX_SHORT_DIMENSION && height <= MAX_SHORT_DIMENSION,
        AutoPyImageFormat::JPEG => width <= MAX_SHORT_DIMENSION && height <= MAX_SHORT_DIMENSION,
        AutoPyImageFormat::BMP => {
            assert(width * height * 4 <= 0xffff_ffff * 0xffff_ffff * 4) by (nonlinear_arith)
                requires
                    0 <= width <= 0xffff_ffff,
                    0 <= height <= 0xffff_ffff,
            ;
            (width as u128) * (height as u128) * 4 + BMP_HEADER_LEN as u128 <= u32::MAX as u128
        },
        AutoPyImageFormat::Unsupported => false,
    }
}

impl Bitmap {
    /// The bitmap of what a decoder gave for the bytes of an image file:
    /// its pixels at scale 1, `Decode` with the decoder's error where it
    /// rejected the bytes, and `Decode` with an error of dimensions where
    /// the pixels are not four bytes for each pixel.
    pub fn from_decoded(decoded: Result<(u32, u32, Vec<u8>), FromImageError>) -> (res: Result<
        Bitmap,
        BitmapError,
    >)
        ensures
            spec_from_decoded(spec_decoded_view(decoded), res),
    {
        match decoded {
            Ok((width, height, data)) => match Bitmap::from_raw(width, height, None, data) {
                Some(bitmap) => Ok(bitmap),
                None => Err(BitmapError::Decode(dimension_error())),
            },
            Err(e) => Err(BitmapError::Decode(e)),
        }
    }

    /// The bytes of an image file of the bitmap in the given format.
    /// `UnsupportedFormat` for `Unsupported`; `Encode` with an error of
    /// dimensions where the format cannot hold the bitmap's dimensions, and
    /// `Encode` where the codec gives up.
    pub fn encode(&self, format: AutoPyImageFormat) -> (res: Result<Vec<u8>, BitmapError>)
        ensures
            spec_encode_result(self@, format, res),
    {
        if !format.is_supported() {
            return Err(BitmapError::UnsupportedFormat);
        }
        let buffer = self.buffer();
        if !encodable(format, buffer.width(), buffer.height()) {
            return Err(BitmapError::Encode(dimension_error()));
        }
        match encode_rgba(buffer.width(), buffer.height(), buffer.raw_view(), format, JPEG_QUALITY) {
            Ok(file) => Ok(file),
            Err(e) => Err(BitmapError::Encode(FromImageError::from(e))),
        }
    }

    /// The bytes of the file that saving the bitmap writes, given the
    /// extension of its path, if it has one: in the format that the name
    /// `format` stands for where one is given, else in that of the
    /// extension.
    /// `UnsupportedFormat` where the deciding name stands for no format
    /// that can be written; the errors of `encode` else.
    pub fn encode_as(&self, format: Option<&str>, extension: Option<&str>) -> (res: Result<
        Vec<u8>,
        BitmapError,
    >)
        ensures
            spec_save_result(self@, spec_name(format), spec_name(extension), res),
    {
        match resolve_save_format(format, extension) {
            Err(e) => Err(e),
            Ok(f) => self.encode(f),
        }
    }
}

} // verus!
