//! Recognition of image files by their path.

use vstd::prelude::*;

verus! {

/// `image::ImageFormat`, the file formats that the image crate knows. A
/// value is carried as it is; nothing is assumed of what it holds.
#[verifier::external_type_specification]
#[verifier::external_body]
pub struct ExImageFormat(image::ImageFormat);

/// `image::ImageError`, the error of the image crate. A value is carried as
/// it is; nothing is assumed of what it holds.
#[verifier::external_type_specification]
#[verifier::external_body]
pub struct ExImageError(image::ImageError);

/// The format that `image::ImageFormat::from_path` derives from the extension
/// of `path`, if it derives one.
pub uninterp spec fn path_format(path: Seq<char>) -> Option<image::ImageFormat>;

/// Whether `image::ImageFormat::can_read` reports a decoder for `format`.
pub uninterp spec fn format_readable(format: image::ImageFormat) -> bool;

/// A path is recognized as an image when its extension names a format that
/// can be decoded.
pub open spec fn recognized(path: Seq<char>) -> bool {
    match path_format(path) {
        Some(format) => format_readable(format),
        None => false,
    }
}

/// Calls `image::ImageFormat::from_path`, which looks at nothing but the text
/// of the path. The result is `Ok` exactly when `path_format` gives a format,
/// and then holds that format.
#[verifier::external_body]
fn format_from_path(path: &str) -> (r: Result<image::ImageFormat, image::ImageError>)
    ensures
        r is Ok <==> path_format(path@) is Some,
        r is Ok ==> path_format(path@) == Some(r->Ok_0),
{
    image::ImageFormat::from_path(path)
}

/// `image::ImageFormat::can_read` answers from a fixed table over the
/// formats: the result depends on the format alone, and is what
/// `format_readable` names.
pub assume_specification[ image::ImageFormat::can_read ](format: &image::ImageFormat) -> (r: bool)
    ensures
        r == format_readable(*format),
;

/// Whether `path` is recognized as an image.
pub fn is_image(path: &str) -> (r: bool)
    ensures
        r == recognized(path@),
{
    match format_from_path(path) {
        Ok(format) => format.can_read(),
        Err(_) => false,
    }
}

} // verus!
