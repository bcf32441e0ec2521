//! Image formats and the file extensions that name them. More formats can
//! be read than written.

use crate::error::BitmapError;
use vstd::prelude::*;
use vstd::string::StrSliceExecFns;

verus! {

/// A format in which an image can be read.
#[derive(Clone, Copy, Debug, PartialEq, Eq, Hash, Structural)]
pub enum ImageFormat {
    Png,
    Jpeg,
    Gif,
    Webp,
    Pnm,
    Tiff,
    Tga,
    Bmp,
    Ico,
    Hdr,
}

/// A format in which an image is written, or `Unsupported` for a name that
/// stands for none of them.
#[derive(Clone, Copy, Debug, PartialEq, Eq, Hash, Structural)]
pub enum AutoPyImageFormat {
    BMP,
    GIF,
    JPEG,
    PNG,
    Unsupported,
}

/// The lower-case form of an ASCII capital; any other character is itself.
pub open spec fn spec_ascii_lower(c: char) -> char {
    match c {
        'A' => 'a',
        'B' => 'b',
        'C' => 'c',
        'D' => 'd',
        'E' => 'e',
        'F' => 'f',
        'G' => 'g',
        'H' => 'h',
        'I' => 'i',
        'J' => 'j',
        'K' => 'k',
        'L' => 'l',
        'M' => 'm',
        'N' => 'n',
        'O' => 'o',
        'P' => 'p',
        'Q' => 'q',
        'R' => 'r',
        'S' => 's',
        'T' => 't',
        'U' => 'u',
        'V' => 'v',
        'W' => 'w',
        'X' => 'x',
        'Y' => 'y',
        'Z' => 'z',
        _ => c,
    }
}

/// Whether `extension` is `name` when ASCII capitals count as their
/// lower-case forms.
pub open spec fn spec_extension_is(extension: Seq<char>, name: Seq<char>) -> bool {
    &&& extension.len() == name.len()
    &&& forall|i: int| 0 <= i < extension.len() ==> spec_ascii_lower(#[trigger] extension[i]) == name[i]
}

/// The format that a file extension names for reading.
pub open spec fn spec_format_from_extension(extension: Seq<char>) -> Option<ImageFormat> {
    if spec_extension_is(extension, "jpg"@) || spec_extension_is(extension, "jpeg"@) {
        Some(ImageFormat::Jpeg)
    } else if spec_extension_is(extension, "png"@) {
        Some(ImageFormat::Png)
    } else if spec_extension_is(extension, "gif"@) {
        Some(ImageFormat::Gif)
    } else if spec_extension_is(extension, "webp"@) {
        Some(ImageFormat::Webp)
    } else if spec_extension_is(extension, "tif"@) || spec_extension_is(extension, "tiff"@) {
        Some(ImageFormat::Tiff)
    } else if spec_extension_is(extension, "tga"@) {
        Some(ImageFormat::Tga)
    } else if spec_extension_is(extension, "bmp"@) {
        Some(ImageFormat::Bmp)
    } else if spec_extension_is(extension, "ico"@) {
        Some(ImageFormat::Ico)
    } else if spec_extension_is(extension, "hdr"@) {
        Some(ImageFormat::Hdr)
    } else if spec_extension_is(extension, "pbm"@) || spec_extension_is(extension, "pam"@)
        || spec_extension_is(extension, "ppm"@) || spec_extension_is(extension, "pgm"@) {
        Some(ImageFormat::Pnm)
    } else {
        None
    }
}

/// The format that a name stands for when an image is written.
pub open spec fn spec_output_format_from_extension(extension: Seq<char>) -> AutoPyImageFormat {
    if spec_extension_is(extension, "bmp"@) {
        AutoPyImageFormat::BMP
    } else if spec_extension_is(extension, "gif"@) {
        AutoPyImageFormat::GIF
    } else if spec_extension_is(extension, "jpeg"@) {
        AutoPyImageFormat::JPEG
    } else if spec_extension_is(extension, "png"@) {
        AutoPyImageFormat::PNG
    } else {
        AutoPyImageFormat::Unsupported
    }
}

/// The format in which one format that can be read is written, if it can be
/// written at all.
pub open spec fn spec_output_format(format: ImageFormat) -> AutoPyImageFormat {
    match format {
        ImageFormat::Bmp => AutoPyImageFormat::BMP,
        ImageFormat::Gif => AutoPyImageFormat::GIF,
        ImageFormat::Jpeg => AutoPyImageFormat::JPEG,
        ImageFormat::Png => AutoPyImageFormat::PNG,
        _ => AutoPyImageFormat::Unsupported,
    }
}

/// The characters of a name that may be absent.
pub open spec fn spec_name(name: Option<&str>) -> Option<Seq<char>> {
    match name {
        Some(n) => Some(n@),
        None => None,
    }
}

/// The name that decides the format of a file to be written: the format
/// that was asked for, else the extension of the path, else the empty name.
pub open spec fn spec_save_name(format: Option<Seq<char>>, extension: Option<Seq<char>>) -> Seq<
    char,
> {
    match format {
        Some(f) => f,
        None => match extension {
            Some(e) => e,
            None => Seq::empty(),
        },
    }
}

/// The format in which a file is written, or `UnsupportedFormat` where the
/// deciding name stands for none.
pub open spec fn spec_save_format(
    format: Option<Seq<char>>,
    extension: Option<Seq<char>>,
) -> Result<AutoPyImageFormat, BitmapError> {
    match spec_output_format_from_extension(spec_save_name(format, extension)) {
        AutoPyImageFormat::Unsupported => Err(BitmapError::UnsupportedFormat),
        f => Ok(f),
    }
}

/// The format in which a file is read, or `UnsupportedFormat` where its
/// extension names none.
pub open spec fn spec_open_format(extension: Seq<char>) -> Result<ImageFormat, BitmapError> {
    match spec_format_from_extension(extension) {
        Some(format) => Ok(format),
        None => Err(BitmapError::UnsupportedFormat),
    }
}

/// The lower-case form of an ASCII capital; any other character is itself.
pub fn ascii_lower(c: char) -> (l: char)
    ensures
        l == spec_ascii_lower(c),
{
    match c {
        'A' => 'a',
        'B' => 'b',
        'C' => 'c',
        'D' => 'd',
        'E' => 'e',
        'F' => 'f',
        'G' => 'g',
        'H' => 'h',
        'I' => 'i',
        'J' => 'j',
        'K' => 'k',
        'L' => 'l',
        'M' => 'm',
        'N' => 'n',
        'O' => 'o',
        'P' => 'p',
        'Q' => 'q',
        'R' => 'r',
        'S' => 's',
        'T' => 't',
        'U' => 'u',
        'V' => 'v',
        'W' => 'w',
        'X' => 'x',
        'Y' => 'y',
        'Z' => 'z',
        _ => c,
    }
}

/// Whether `extension` is `name`, capitals of `extension` counting as
/// their lower-case forms.
pub fn extension_is(extension: &str, name: &str) -> (same: bool)
    ensures
        same == spec_extension_is(extension@, name@),
{
    let n: usize = extension.unicode_len();
    if n != name.unicode_len() {
        return false;
    }
    let mut i: usize = 0;
    while i < n
        invariant
            i <= n,
            n == extension@.len(),
            n == name@.len(),
            forall|j: int| 0 <= j < i ==> spec_ascii_lower(#[trigger] extension@[j]) == name@[j],
        decreases n - i,
    {
        if ascii_lower(extension.get_char(i)) != name.get_char(i) {
            return false;
        }
        i += 1;
    }
    true
}

/// The format that a file extension names for reading; `None` for an
/// extension that names none.
pub fn image_format_from_extension(extension: &str) -> (format: Option<ImageFormat>)
    ensures
        format == spec_format_from_extension(extension@),
{
    if extension_is(extension, "jpg") || extension_is(extension, "jpeg") {
        Some(ImageFormat::Jpeg)
    } else if extension_is(extension, "png") {
        Some(ImageFormat::Png)
    } else if extension_is(extension, "gif") {
        Some(ImageFormat::Gif)
    } else if extension_is(extension, "webp") {
        Some(ImageFormat::Webp)
    } else if extension_is(extension, "tif") || extension_is(extension, "tiff") {
        Some(ImageFormat::Tiff)
    } else if extension_is(extension, "tga") {
        Some(ImageFormat::Tga)
    } else if extension_is(extension, "bmp") {
        Some(ImageFormat::Bmp)
    } else if extension_is(extension, "ico") {
        Some(ImageFormat::Ico)
    } else if extension_is(extension, "hdr") {
        Some(ImageFormat::Hdr)
    } else if extension_is(extension, "pbm") || extension_is(extension, "pam") || extension_is(
        extension,
        "ppm",
    ) || extension_is(extension, "pgm") {
        Some(ImageFormat::Pnm)
    } else {
        None
    }
}

/// The format that a name stands for when an image is written: `bmp`,
/// `gif`, `jpeg` and `png` in any mix of cases, and `Unsupported` for every
/// other name.
pub fn image_output_format_from_extension(extension: &str) -> (format: AutoPyImageFormat)
    ensures
        format == spec_output_format_from_extension(extension@),
{
    if extension_is(extension, "bmp") {
        AutoPyImageFormat::BMP
    } else if extension_is(extension, "gif") {
        AutoPyImageFormat::GIF
    } else if extension_is(extension, "jpeg") {
        AutoPyImageFormat::JPEG
    } else if extension_is(extension, "png") {
        AutoPyImageFormat::PNG
    } else {
        AutoPyImageFormat::Unsupported
    }
}

impl AutoPyImageFormat {
    /// The format in which a format that can be read is written;
    /// `Unsupported` for one that can only be read.
    pub fn from_image_format(format: ImageFormat) -> (out: AutoPyImageFormat)
        ensures
            out == spec_output_format(format),
    {
        match format {
            ImageFormat::Bmp => AutoPyImageFormat::BMP,
            ImageFormat::Gif => AutoPyImageFormat::GIF,
            ImageFormat::Jpeg => AutoPyImageFormat::JPEG,
            ImageFormat::Png => AutoPyImageFormat::PNG,
            _ => AutoPyImageFormat::Unsupported,
        }
    }

    /// Whether images can be written in the format.
    pub fn is_supported(&self) -> (s: bool)
        ensures
            s == (*self != AutoPyImageFormat::Unsupported),
    {
        match self {
            AutoPyImageFormat::Unsupported => false,
            _ => true,
        }
    }
}

/// The format in which a file with the given extension is read;
/// `UnsupportedFormat` where the extension names no format that can be
/// read.
pub fn resolve_open_format(extension: &str) -> (res: Result<ImageFormat, BitmapError>)
    ensures
        res == spec_open_format(extension@),
{
    match image_format_from_extension(extension) {
        Some(format) => Ok(format),
        None => Err(BitmapError::UnsupportedFormat),
    }
}

/// The format in which a file is written: that of the name `format` where
/// one is given, else that of the path's extension. `UnsupportedFormat`
/// where the deciding name stands for no format that can be written, as
/// when there is neither a name nor an extension.
pub fn resolve_save_format(format: Option<&str>, extension: Option<&str>) -> (res: Result<
    AutoPyImageFormat,
    BitmapError,
>)
    ensures
        res == spec_save_format(spec_name(format), spec_name(extension)),
{
    let name: &str = match format {
        Some(f) => f,
        None => match extension {
            Some(e) => e,
            None => "",
        },
    };
    proof {
        reveal_strlit("");
    }
    match image_output_format_from_extension(name) {
        AutoPyImageFormat::Unsupported => Err(BitmapError::UnsupportedFormat),
        f => Ok(f),
    }
}

/// Every name that can be written can be read, and is written in the format
/// in which it is read; `jpg` is read and not written.
pub proof fn lemma_written_formats_are_read(extension: Seq<char>)
    ensures
        spec_output_format_from_extension(extension) != AutoPyImageFormat::Unsupported ==> {
            &&& spec_format_from_extension(extension) is Some
            &&& spec_output_format(spec_format_from_extension(extension)->Some_0)
                == spec_output_format_from_extension(extension)
        },
        spec_format_from_extension("jpg"@) == Some(ImageFormat::Jpeg),
        spec_output_format_from_extension("jpg"@) == AutoPyImageFormat::Unsupported,
{
    reveal_strlit("jpg");
    reveal_strlit("jpeg");
    reveal_strlit("png");
    reveal_strlit("gif");
    reveal_strlit("bmp");
    reveal_strlit("webp");
    reveal_strlit("tif");
    reveal_strlit("tiff");
    reveal_strlit("tga");
    reveal_strlit("ico");
    reveal_strlit("hdr");
    reveal_strlit("pbm");
    reveal_strlit("pam");
    reveal_strlit("ppm");
    reveal_strlit("pgm");
    if spec_extension_is(extension, "bmp"@) {
        assert(spec_ascii_lower(extension[0]) == 'b');
        assert(spec_ascii_lower(extension[1]) == 'm');
        assert(!spec_extension_is(extension, "png"@));
        assert(!spec_extension_is(extension, "gif"@));
        assert(!spec_extension_is(extension, "jpg"@));
        assert(!spec_extension_is(extension, "tif"@));
        assert(!spec_extension_is(extension, "tga"@));
    } else if spec_extension_is(extension, "gif"@) {
        assert(spec_ascii_lower(extension[0]) == 'g');
        assert(!spec_extension_is(extension, "png"@));
        assert(!spec_extension_is(extension, "jpg"@));
    } else if spec_extension_is(extension, "jpeg"@) {
    } else if spec_extension_is(extension, "png"@) {
        assert(spec_ascii_lower(extension[0]) == 'p');
        assert(!spec_extension_is(extension, "jpg"@));
    }
    assert(spec_ascii_lower("jpg"@[0]) == 'j');
    assert(spec_ascii_lower("jpg"@[1]) == 'p');
    assert(spec_ascii_lower("jpg"@[2]) == 'g');
    assert(spec_extension_is("jpg"@, "jpg"@));
    assert(!spec_extension_is("jpg"@, "bmp"@));
    assert(!spec_extension_is("jpg"@, "gif"@));
    assert(!spec_extension_is("jpg"@, "png"@));
}

} // verus!
