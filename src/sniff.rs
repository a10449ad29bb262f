//! Image format detection from the leading bytes of a payload.
use vstd::prelude::*;

verus! {

/// The formats that can be told apart by their magic numbers.
#[derive(Clone, Copy, Debug, PartialEq, Eq, Structural)]
pub enum ImageFormat {
    Jpeg,
    Png,
    Gif,
    Webp,
    Bmp,
    Tiff,
    Ico,
    Svg,
    Unknown,
}

/// The format that the leading bytes of `b` announce; signatures are tried in
/// a fixed order and the first match wins.
pub open spec fn format_of(b: Seq<u8>) -> ImageFormat {
    if b.len() >= 3 && b[0] == 0xFF && b[1] == 0xD8 && b[2] == 0xFF {
        ImageFormat::Jpeg
    } else if b.len() >= 4 && b[0] == 0x89 && b[1] == 0x50 && b[2] == 0x4E && b[3] == 0x47 {
        ImageFormat::Png
    } else if b.len() >= 4 && b[0] == 0x47 && b[1] == 0x49 && b[2] == 0x46 && b[3] == 0x38 {
        ImageFormat::Gif
    } else if b.len() >= 12 && b[0] == 0x52 && b[1] == 0x49 && b[2] == 0x46 && b[3] == 0x46
        && b[8] == 0x57 && b[9] == 0x45 && b[10] == 0x42 && b[11] == 0x50 {
        ImageFormat::Webp
    } else if b.len() >= 2 && b[0] == 0x42 && b[1] == 0x4D {
        ImageFormat::Bmp
    } else if b.len() >= 4 && ((b[0] == 0x49 && b[1] == 0x49 && b[2] == 0x2A && b[3] == 0x00) || (
    b[0] == 0x4D && b[1] == 0x4D && b[2] == 0x00 && b[3] == 0x2A)) {
        ImageFormat::Tiff
    } else if b.len() >= 4 && b[0] == 0x00 && b[1] == 0x00 && b[2] == 0x01 && b[3] == 0x00 {
        ImageFormat::Ico
    } else if (b.len() >= 5 && b[0] == 0x3C && b[1] == 0x3F && b[2] == 0x78 && b[3] == 0x6D && b[4]
        == 0x6C) || (b.len() >= 4 && b[0] == 0x3C && b[1] == 0x73 && b[2] == 0x76 && b[3] == 0x67) {
        ImageFormat::Svg
    } else {
        ImageFormat::Unknown
    }
}

/// The file extension of a recognised format.
pub open spec fn extension_of(f: ImageFormat) -> Option<&'static str> {
    match f {
        ImageFormat::Jpeg => Some("jpg"),
        ImageFormat::Png => Some("png"),
        ImageFormat::Gif => Some("gif"),
        ImageFormat::Webp => Some("webp"),
        ImageFormat::Bmp => Some("bmp"),
        ImageFormat::Tiff => Some("tiff"),
        ImageFormat::Ico => Some("ico"),
        ImageFormat::Svg => Some("svg"),
        ImageFormat::Unknown => None,
    }
}

/// The extension a file of format `f` is saved under: `jpg` when the format
/// is unknown.
pub open spec fn file_extension_of(f: ImageFormat) -> &'static str {
    match extension_of(f) {
        Some(e) => e,
        None => "jpg",
    }
}

/// Sniffs the format of `bytes`; a payload shorter than a signature never
/// matches it.
pub fn sniff_format(bytes: &[u8]) -> (r: ImageFormat)
    ensures
        r == format_of(bytes@),
{
    let n = bytes.len();
    if n >= 3 && bytes[0] == 0xFF && bytes[1] == 0xD8 && bytes[2] == 0xFF {
        ImageFormat::Jpeg
    } else if n >= 4 && bytes[0] == 0x89 && bytes[1] == 0x50 && bytes[2] == 0x4E && bytes[3] == 0x47 {
        ImageFormat::Png
    } else if n >= 4 && bytes[0] == 0x47 && bytes[1] == 0x49 && bytes[2] == 0x46 && bytes[3] == 0x38 {
        ImageFormat::Gif
    } else if n >= 12 && bytes[0] == 0x52 && bytes[1] == 0x49 && bytes[2] == 0x46 && bytes[3] == 0x46
        && bytes[8] == 0x57 && bytes[9] == 0x45 && bytes[10] == 0x42 && bytes[11] == 0x50 {
        ImageFormat::Webp
    } else if n >= 2 && bytes[0] == 0x42 && bytes[1] == 0x4D {
        ImageFormat::Bmp
    } else if n >= 4 && ((bytes[0] == 0x49 && bytes[1] == 0x49 && bytes[2] == 0x2A && bytes[3] == 0x00)
        || (bytes[0] == 0x4D && bytes[1] == 0x4D && bytes[2] == 0x00 && bytes[3] == 0x2A)) {
        ImageFormat::Tiff
    } else if n >= 4 && bytes[0] == 0x00 && bytes[1] == 0x00 && bytes[2] == 0x01 && bytes[3] == 0x00 {
        ImageFormat::Ico
    } else if (n >= 5 && bytes[0] == 0x3C && bytes[1] == 0x3F && bytes[2] == 0x78 && bytes[3] == 0x6D
        && bytes[4] == 0x6C) || (n >= 4 && bytes[0] == 0x3C && bytes[1] == 0x73 && bytes[2] == 0x76
        && bytes[3] == 0x67) {
        ImageFormat::Svg
    } else {
        ImageFormat::Unknown
    }
}

impl ImageFormat {
    /// The extension of this format, `None` when it is unknown.
    pub fn extension(self) -> (r: Option<&'static str>)
        ensures
            r == extension_of(self),
    {
        match self {
            ImageFormat::Jpeg => Some("jpg"),
            ImageFormat::Png => Some("png"),
            ImageFormat::Gif => Some("gif"),
            ImageFormat::Webp => Some("webp"),
            ImageFormat::Bmp => Some("bmp"),
            ImageFormat::Tiff => Some("tiff"),
            ImageFormat::Ico => Some("ico"),
            ImageFormat::Svg => Some("svg"),
            ImageFormat::Unknown => None,
        }
    }

    /// The extension a file of this format is saved under.
    pub fn file_extension(self) -> (r: &'static str)
        ensures
            r == file_extension_of(self),
    {
        match self.extension() {
            Some(e) => e,
            None => "jpg",
        }
    }
}

/// The extension that the leading bytes of `bytes` announce, `None` when no
/// signature matches.
pub fn get_extension(bytes: &[u8]) -> (r: Option<&'static str>)
    ensures
        r == extension_of(format_of(bytes@)),
{
    sniff_format(bytes).extension()
}

} // verus!
