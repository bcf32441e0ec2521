//! The ways in which an operation on a bitmap can fail.

use vstd::prelude::*;

verus! {

/// What a codec reported when it gave up on an image.
#[derive(Clone, Copy, Debug, PartialEq, Eq, Hash, Structural)]
pub enum ImageErrorKind {
    /// The bytes are not a well-formed image of the format.
    Format,
    /// The dimensions of the image do not fit what was asked of it.
    Dimension,
    /// The codec does not handle the colour layout of the image.
    UnsupportedColor,
    /// The codec does not handle the format or this use of it.
    Unsupported,
    /// The bytes ended before the image was complete.
    NotEnoughData,
    /// Reading or writing the bytes failed.
    Io,
    /// The end of the image was reached.
    ImageEnd,
    /// The image needs more memory than could be had.
    InsufficientMemory,
}

/// The Python-side exception families that an error is raised as.
#[derive(Clone, Copy, Debug, PartialEq, Eq, Hash, Structural)]
pub enum ErrorClass {
    /// The caller passed a value that cannot be used.
    Value,
    /// Storage or a codec failed.
    Io,
}

/// An error of the image codec: its kind and the codec's own message.
#[derive(Clone, Debug, PartialEq, Eq, Hash)]
pub struct FromImageError {
    pub kind: ImageErrorKind,
    pub message: String,
}

/// Why an operation on a bitmap failed.
#[derive(Clone, Debug, PartialEq, Eq, Hash)]
pub enum BitmapError {
    /// A rectangle, a point or a placement lies outside the bitmap.
    OutOfBounds,
    /// The two bitmaps of a search differ in scale.
    ScaleMismatch,
    /// No codec is known for the format.
    UnsupportedFormat,
    /// The codec rejected the bytes.
    Decode(FromImageError),
    /// The codec rejected the buffer.
    Encode(FromImageError),
    /// Storage failed; the message is that of the operating system.
    Io(String),
    /// The screen could not be captured.
    Capture(String),
}

/// The class of a codec error: a mismatch of dimensions is the caller's
/// mistake, every other kind a failure of codec or storage.
pub open spec fn spec_image_error_class(kind: ImageErrorKind) -> ErrorClass {
    match kind {
        ImageErrorKind::Dimension => ErrorClass::Value,
        _ => ErrorClass::Io,
    }
}

/// The class of an error: errors of bounds, scale and format are the
/// caller's mistakes, codec errors follow their kind, the rest is I/O.
pub open spec fn spec_error_class(err: BitmapError) -> ErrorClass {
    match err {
        BitmapError::OutOfBounds => ErrorClass::Value,
        BitmapError::ScaleMismatch => ErrorClass::Value,
        BitmapError::UnsupportedFormat => ErrorClass::Value,
        BitmapError::Decode(e) => spec_image_error_class(e.kind),
        BitmapError::Encode(e) => spec_image_error_class(e.kind),
        BitmapError::Io(_) => ErrorClass::Io,
        BitmapError::Capture(_) => ErrorClass::Io,
    }
}

impl FromImageError {
    /// An error of the given kind with the codec's message.
    pub fn new(kind: ImageErrorKind, message: String) -> (e: FromImageError)
        ensures
            e.kind == kind,
            e.message == message,
    {
        FromImageError { kind, message }
    }

    /// The class that the error is raised as.
    pub fn class(&self) -> (c: ErrorClass)
        ensures
            c == spec_image_error_class(self.kind),
    {
        match self.kind {
            ImageErrorKind::Dimension => ErrorClass::Value,
            _ => ErrorClass::Io,
        }
    }
}

impl BitmapError {
    /// The class that the error is raised as.
    pub fn class(&self) -> (c: ErrorClass)
        ensures
            c == spec_error_class(*self),
    {
        match self {
            BitmapError::OutOfBounds => ErrorClass::Value,
            BitmapError::ScaleMismatch => ErrorClass::Value,
            BitmapError::UnsupportedFormat => ErrorClass::Value,
            BitmapError::Decode(e) => e.class(),
            BitmapError::Encode(e) => e.class(),
            BitmapError::Io(_) => ErrorClass::Io,
            BitmapError::Capture(_) => ErrorClass::Io,
        }
    }
}

} // verus!
