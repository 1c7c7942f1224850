//! Output formats: naming, detection from a path's extension, and the
//! extension written for each format.

use vstd::prelude::*;

verus! {

/// The image formats that outputs can be written in.
#[derive(Clone, Copy, Debug, PartialEq, Eq, Structural)]
pub enum OutputFormat {
    Png,
    Jpeg,
    WebP,
    Bmp,
    Tiff,
}

/// What `str::to_lowercase` gives for a string.
pub uninterp spec fn lower_of(s: Seq<char>) -> Seq<char>;

/// What `Path::extension` gives for a path, as text.
pub uninterp spec fn extension_of(p: Seq<char>) -> Option<Seq<char>>;

/// Relies on `str::to_lowercase`: the lowercase form of `s`.
#[verifier::external_body]
fn lowercase(s: &str) -> (r: String)
    ensures
        r@ == lower_of(s@),
{
    s.to_lowercase()
}

/// Relies on `std::path::Path::extension`: the text after the last dot of the
/// file name, if there is one.
#[verifier::external_body]
fn path_extension(path: &str) -> (r: Option<String>)
    ensures
        match r {
            Some(e) => extension_of(path@) == Some(e@),
            None => extension_of(path@).is_none(),
        },
{
    std::path::Path::new(path).extension().and_then(|e| e.to_str()).map(|e| e.to_string())
}

/// Whether two strings hold the same characters.
fn same_text(a: &str, b: &str) -> (r: bool)
    ensures
        r == (a@ == b@),
{
    let x = a.to_owned();
    let y = b.to_owned();
    x == y
}

/// The format that an explicitly requested (already lowercase) name selects.
pub open spec fn named_format(name: Seq<char>) -> Option<OutputFormat> {
    if name == "png"@ {
        Some(OutputFormat::Png)
    } else if name == "jpg"@ || name == "jpeg"@ {
        Some(OutputFormat::Jpeg)
    } else if name == "webp"@ {
        Some(OutputFormat::WebP)
    } else if name == "bmp"@ {
        Some(OutputFormat::Bmp)
    } else if name == "tiff"@ {
        Some(OutputFormat::Tiff)
    } else {
        None
    }
}

/// The format that an (already lowercase) file extension indicates. Besides
/// the explicit names, `tif` is read as TIFF.
pub open spec fn extension_format(ext: Seq<char>) -> Option<OutputFormat> {
    if ext == "tif"@ {
        Some(OutputFormat::Tiff)
    } else {
        named_format(ext)
    }
}

/// The format inferred from a path: its extension, compared case-insensitively.
pub open spec fn detected_format(path: Seq<char>) -> Option<OutputFormat> {
    match extension_of(path) {
        Some(e) => extension_format(lower_of(e)),
        None => None,
    }
}

/// The extension written for each format.
pub open spec fn extension_text(f: OutputFormat) -> Seq<char> {
    match f {
        OutputFormat::Png => "png"@,
        OutputFormat::Jpeg => "jpg"@,
        OutputFormat::WebP => "webp"@,
        OutputFormat::Bmp => "bmp"@,
        OutputFormat::Tiff => "tiff"@,
    }
}

/// Reads a lowercase format name.
pub fn format_named(name: &str) -> (r: Option<OutputFormat>)
    ensures
        r == named_format(name@),
{
    if same_text(name, "png") {
        Some(OutputFormat::Png)
    } else if same_text(name, "jpg") || same_text(name, "jpeg") {
        Some(OutputFormat::Jpeg)
    } else if same_text(name, "webp") {
        Some(OutputFormat::WebP)
    } else if same_text(name, "bmp") {
        Some(OutputFormat::Bmp)
    } else if same_text(name, "tiff") {
        Some(OutputFormat::Tiff)
    } else {
        None
    }
}

/// Reads a lowercase file extension.
pub fn format_for_extension(ext: &str) -> (r: Option<OutputFormat>)
    ensures
        r == extension_format(ext@),
{
    if same_text(ext, "tif") {
        Some(OutputFormat::Tiff)
    } else {
        format_named(ext)
    }
}

/// A format name that is not one of the supported ones.
#[derive(Debug, PartialEq, Eq)]
pub struct UnsupportedFormat {
    pub name: String,
}

/// Reads a user-supplied format name, in any letter case.
pub fn parse_format(format_str: &str) -> (r: Result<OutputFormat, UnsupportedFormat>)
    ensures
        match named_format(lower_of(format_str@)) {
            Some(f) => r == Ok::<OutputFormat, UnsupportedFormat>(f),
            None => r is Err && r->Err_0.name@ == format_str@,
        },
{
    let lowered = lowercase(format_str);
    match format_named(lowered.as_str()) {
        Some(f) => Ok(f),
        None => Err(UnsupportedFormat { name: format_str.to_owned() }),
    }
}

/// Infers a format from a path's extension, in any letter case.
pub fn detect_format(path: &str) -> (r: Option<OutputFormat>)
    ensures
        r == detected_format(path@),
{
    match path_extension(path) {
        Some(ext) => {
            let lowered = lowercase(ext.as_str());
            format_for_extension(lowered.as_str())
        },
        None => None,
    }
}

/// The file extension written for a format.
pub fn format_to_extension(format: OutputFormat) -> (r: &'static str)
    ensures
        r@ == extension_text(format),
{
    match format {
        OutputFormat::Png => "png",
        OutputFormat::Jpeg => "jpg",
        OutputFormat::WebP => "webp",
        OutputFormat::Bmp => "bmp",
        OutputFormat::Tiff => "tiff",
    }
}

} // verus!
