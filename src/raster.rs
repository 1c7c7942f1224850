//! The image transform: decode, resize as planned, stamp the watermark at the
//! top-left corner, encode. Pixels are the image crate's business, named here
//! by what each of its calls returns; what is proved is which calls make an
//! output, in which order and with which arguments, and which size it gets.

use crate::format::OutputFormat;
use crate::resize::{target_dimensions, target_extent, ResizeSpec};
use image::GenericImageView;
use vstd::prelude::*;

verus! {

#[verifier::external_type_specification]
#[verifier::external_body]
pub struct ExDynamicImage(image::DynamicImage);

#[verifier::external_type_specification]
#[verifier::external_body]
pub struct ExImageError(image::ImageError);

/// The `(width, height)` in pixels of a decoded image, as
/// `GenericImageView::dimensions` reports it.
pub uninterp spec fn extent_of(img: image::DynamicImage) -> (u32, u32);

/// What `image::load_from_memory` gives for some bytes: the decoded image,
/// or `None` where it reports an error.
pub uninterp spec fn decoded(bytes: Seq<u8>) -> Option<image::DynamicImage>;

/// What `DynamicImage::write_to` writes for an image in a format, or `None`
/// where it reports an error.
pub uninterp spec fn encoded(img: image::DynamicImage, format: OutputFormat) -> Option<Seq<u8>>;

/// What `DynamicImage::resize_exact` gives for an image, a size and a filter.
pub uninterp spec fn resized(img: image::DynamicImage, w: u32, h: u32, filter: ResizeFilter) -> image::DynamicImage;

/// What `imageops::overlay` leaves in `base` after blending `top` onto it
/// with `top`'s corner at `(x, y)`.
pub uninterp spec fn overlaid(
    base: image::DynamicImage,
    top: image::DynamicImage,
    x: i64,
    y: i64,
) -> image::DynamicImage;

/// The resampling filters a resize can use.
#[derive(Clone, Copy, Debug, PartialEq, Eq, Structural)]
pub enum ResizeFilter {
    Nearest,
    Triangle,
    CatmullRom,
    Gaussian,
    Lanczos3,
}

/// Whether resizing a source `src_w` pixels wide to `w` by `h` stays within
/// what the image crate can allocate: its resampler builds a four-channel
/// buffer of `src_w` by `h` and one of `w` by `h`.
pub open spec fn resize_fits(src_w: u32, w: u32, h: u32) -> bool {
    4 * src_w as int * h as int <= usize::MAX as int && 4 * w as int * h as int <= usize::MAX as int
}

/// Relies on `image::load_from_memory`: decodes an image, guessing its
/// container (PNG, JPEG, WebP, BMP or TIFF here) from the bytes.
#[verifier::external_body]
pub(crate) fn decode(bytes: &[u8]) -> (r: Result<image::DynamicImage, image::ImageError>)
    ensures
        match r {
            Ok(img) => decoded(bytes@) == Some(img),
            Err(_) => decoded(bytes@) is None,
        },
{
    image::load_from_memory(bytes)
}

/// Relies on `GenericImageView::dimensions` for `DynamicImage`: the image's
/// width and height.
#[verifier::external_body]
fn dimensions(img: &image::DynamicImage) -> (r: (u32, u32))
    ensures
        r == extent_of(*img),
{
    img.dimensions()
}

/// Relies on `DynamicImage::resize_exact`: a new image of exactly `w` by `h`
/// pixels, resampled with `filter`. It panics where a buffer it builds would
/// overflow `usize`, which `requires` leaves out.
#[verifier::external_body]
fn resize_exact(img: &image::DynamicImage, w: u32, h: u32, filter: ResizeFilter) -> (r:
    image::DynamicImage)
    requires
        resize_fits(extent_of(*img).0, w, h),
    ensures
        r == resized(*img, w, h, filter),
        extent_of(r) == (w, h),
{
    let filter = match filter {
        ResizeFilter::Nearest => image::imageops::FilterType::Nearest,
        ResizeFilter::Triangle => image::imageops::FilterType::Triangle,
        ResizeFilter::CatmullRom => image::imageops::FilterType::CatmullRom,
        ResizeFilter::Gaussian => image::imageops::FilterType::Gaussian,
        ResizeFilter::Lanczos3 => image::imageops::FilterType::Lanczos3,
    };
    img.resize_exact(w, h, filter)
}

/// Relies on `imageops::overlay`: blends `top` onto `base` pixel by pixel
/// with `top`'s corner at `(x, y)`, cropped to `base`, whose size does not
/// change.
#[verifier::external_body]
fn overlay(base: &mut image::DynamicImage, top: &image::DynamicImage, x: i64, y: i64)
    ensures
        *final(base) == overlaid(*old(base), *top, x, y),
        extent_of(*final(base)) == extent_of(*old(base)),
{
    image::imageops::overlay(base, top, x, y)
}

/// Relies on `DynamicImage::write_to`: encodes the image in the given format
/// into a byte buffer.
#[verifier::external_body]
fn encode(img: &image::DynamicImage, format: OutputFormat) -> (r: Result<
    Vec<u8>,
    image::ImageError,
>)
    ensures
        match r {
            Ok(bytes) => encoded(*img, format) == Some(bytes@),
            Err(_) => encoded(*img, format) is None,
        },
{
    let format = match format {
        OutputFormat::Png => image::ImageFormat::Png,
        OutputFormat::Jpeg => image::ImageFormat::Jpeg,
        OutputFormat::WebP => image::ImageFormat::WebP,
        OutputFormat::Bmp => image::ImageFormat::Bmp,
        OutputFormat::Tiff => image::ImageFormat::Tiff,
    };
    let mut out = std::io::Cursor::new(Vec::new());
    img.write_to(&mut out, format).map(|_| out.into_inner())
}

/// Why an image could not be turned into its watermarked form.
#[derive(Debug)]
pub enum RenderError {
    /// The source bytes are not an image the decoder knows.
    Decode(image::ImageError),
    /// The planned size is too large to allocate.
    TooLarge { width: u32, height: u32 },
    /// The encoder refused the image.
    Encode(image::ImageError),
}

/// The size the watermarked image of a source of size `src` gets.
pub open spec fn output_extent(src: (u32, u32), resize: ResizeSpec) -> (u32, u32) {
    match target_extent(src.0, src.1, resize) {
        Some(t) => t,
        None => src,
    }
}

/// Whether the planned resize of a source of size `src` can be carried out.
pub open spec fn can_resize(src: (u32, u32), resize: ResizeSpec) -> bool {
    match target_extent(src.0, src.1, resize) {
        Some(t) => resize_fits(src.0, t.0, t.1),
        None => true,
    }
}

/// The filter every resize uses.
pub open spec fn resample_filter() -> ResizeFilter {
    ResizeFilter::Lanczos3
}

/// `img` resized as planned (kept as it is where no resize is asked), with
/// `mark` blended on at offset (0, 0), the top-left corner, unscaled.
pub open spec fn stamped(img: image::DynamicImage, mark: image::DynamicImage, resize: ResizeSpec) -> image::DynamicImage {
    let src = extent_of(img);
    let base = match target_extent(src.0, src.1, resize) {
        Some(t) => resized(img, t.0, t.1, resample_filter()),
        None => img,
    };
    overlaid(base, mark, 0, 0)
}

/// What rendering `source` gives: `None` where it does not decode, the
/// planned resize cannot be carried out, or the encoder refuses the result;
/// else the stamped image encoded in `format`.
pub open spec fn rendered(
    source: Seq<u8>,
    mark: image::DynamicImage,
    resize: ResizeSpec,
    format: OutputFormat,
) -> Option<Seq<u8>> {
    match decoded(source) {
        Some(img) => if can_resize(extent_of(img), resize) {
            encoded(stamped(img, mark, resize), format)
        } else {
            None
        },
        None => None,
    }
}

/// Resizes `img` as planned and stamps `mark` onto its top-left corner.
pub fn stamp(img: image::DynamicImage, mark: &image::DynamicImage, resize: ResizeSpec) -> (r: Result<
    image::DynamicImage,
    RenderError,
>)
    ensures
        can_resize(extent_of(img), resize) <==> r is Ok,
        r is Ok ==> r->Ok_0 == stamped(img, *mark, resize),
        r is Ok ==> extent_of(r->Ok_0) == output_extent(extent_of(img), resize),
        !resize.requested() ==> r is Ok && extent_of(r->Ok_0) == extent_of(img),
        r is Err ==> (r->Err_0 matches RenderError::TooLarge { width, height }
            && target_extent(extent_of(img).0, extent_of(img).1, resize) == Some((width, height))),
{
    let (src_w, src_h) = dimensions(&img);
    let mut out = match target_dimensions(src_w, src_h, resize) {
        Some((w, h)) => {
            if !allocation_fits(src_w, w, h) {
                return Err(RenderError::TooLarge { width: w, height: h });
            }
            resize_exact(&img, w, h, ResizeFilter::Lanczos3)
        },
        None => img,
    };
    overlay(&mut out, mark, 0, 0);
    Ok(out)
}

proof fn lemma_quad_product_bound(a: u32, b: u32)
    ensures
        4 * a as int * b as int <= 4 * u32::MAX as int * u32::MAX as int,
{
    assert(4 * a as int * b as int <= 4 * u32::MAX as int * u32::MAX as int) by (nonlinear_arith)
        requires
            a <= u32::MAX,
            b <= u32::MAX,
    ;
}

/// Computes `resize_fits`.
fn allocation_fits(src_w: u32, w: u32, h: u32) -> (r: bool)
    ensures
        r == resize_fits(src_w, w, h),
{
    proof {
        lemma_quad_product_bound(src_w, h);
        lemma_quad_product_bound(w, h);
    }
    let limit: u128 = usize::MAX as u128;
    let a: u128 = 4 * (src_w as u128) * (h as u128);
    let b: u128 = 4 * (w as u128) * (h as u128);
    a <= limit && b <= limit
}

/// The watermarked form of an encoded source image, encoded in `format`.
pub fn render(
    source: &[u8],
    mark: &image::DynamicImage,
    resize: ResizeSpec,
    format: OutputFormat,
) -> (r: Result<Vec<u8>, RenderError>)
    ensures
        decoded(source@) is None ==> r is Err && r->Err_0 is Decode,
        decoded(source@) is Some && !can_resize(extent_of(decoded(source@)->Some_0), resize)
            ==> r is Err && r->Err_0 is TooLarge,
        decoded(source@) is Some && can_resize(extent_of(decoded(source@)->Some_0), resize)
            ==> match encoded(stamped(decoded(source@)->Some_0, *mark, resize), format) {
            Some(b) => r is Ok && r->Ok_0@ == b,
            None => r is Err && r->Err_0 is Encode,
        },
        match rendered(source@, *mark, resize, format) {
            Some(b) => r is Ok && r->Ok_0@ == b,
            None => r is Err,
        },
{
    let img = match decode(source) {
        Ok(img) => img,
        Err(e) => return Err(RenderError::Decode(e)),
    };
    let out = stamp(img, mark, resize)?;
    match encode(&out, format) {
        Ok(bytes) => Ok(bytes),
        Err(e) => Err(RenderError::Encode(e)),
    }
}

} // verus!
