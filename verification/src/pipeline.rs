//! The conversion pipeline: decode, transform by document type, encode.

use crate::binarize::{
    binarized, binarized_at, is_binary, lemma_binarized_idempotent, lemma_binarized_is_binary,
    threshold_samples,
};
use crate::descriptor::{exam_format_in, is_parse_error_of, parse_exam_format};
use crate::error::{lemma_prefixed, message_prefix, well_prefixed, ConvertError, ErrorKind};
use crate::raster::{
    adjust_contrast, as_ints, brighten, buffer_fits, can_walk, contrast_raised, decode_image,
    encode_jpeg, fits_in_buffer, gray_sample,
    grayscale, height_of, holds_no_spare_samples, image_error_says, image_error_text,
    image_from_rgb, image_height,
    image_in, image_width,
    is_brightened, is_compact, is_grayscale_of, jpeg_size, jpeg_stream_of, keeps_extremes,
    layout_of, pixel_layout, repeats_levels, resampled, resize_exact,
    rgb_samples, rgb_samples_of, same_shape, samples_of, starts_as_jpeg, walkable, width_of,
    PixelLayout, ResizeFilter,
};
use crate::requirements::{ExamFormat, ExamFormatSpec, PhotoRequirements, SignatureRequirements};
use crate::text::same_text;
use vstd::prelude::*;

verus! {

/// Threshold of the binarization of a signature.
pub const SIGNATURE_THRESHOLD: u8 = 128;

/// Brightness added to a passport photo.
pub const PHOTO_BRIGHTNESS: i32 = 10;

/// Brightness added to a generic document.
pub const DOCUMENT_BRIGHTNESS: i32 = 5;

/// Contrast added to a signature.
pub const SIGNATURE_CONTRAST: i16 = 20;

/// Contrast added to a generic document.
pub const DOCUMENT_CONTRAST: i16 = 10;

/// The kinds of document that are converted, each in its own way.
#[derive(Clone, Copy, Debug, PartialEq, Eq, Structural)]
pub enum DocumentKind {
    PassportPhoto,
    Signature,
    /// Any other document.
    Generic,
}

/// The kind that a document type tag stands for: `passport_photo` and
/// `signature` name their kinds, every other tag is a generic document.
pub open spec fn kind_of_tag(tag: Seq<char>) -> DocumentKind {
    if tag == "passport_photo"@ {
        DocumentKind::PassportPhoto
    } else if tag == "signature"@ {
        DocumentKind::Signature
    } else {
        DocumentKind::Generic
    }
}

impl DocumentKind {
    /// The kind that a document type tag stands for.
    pub fn from_tag(tag: &str) -> (kind: DocumentKind)
        ensures
            kind == kind_of_tag(tag@),
    {
        if same_text(tag, "passport_photo") {
            DocumentKind::PassportPhoto
        } else if same_text(tag, "signature") {
            DocumentKind::Signature
        } else {
            DocumentKind::Generic
        }
    }
}

/// Why an image cannot be transformed.
#[derive(Clone, Copy, Debug, PartialEq, Eq, Structural)]
pub enum Fault {
    /// The samples of the image are no integers.
    UnsupportedLayout,
    /// The image has no columns, and more than one row.
    EmptyImage,
    /// The buffers of a resize to the required size are more than a vector
    /// can hold.
    TooLarge,
    /// The required size has no columns, and more than one row.
    EmptySize,
}

impl Fault {
    /// The kind of error that the fault is reported as: a fault of the image
    /// is a decode error, a fault of the required size an encode error.
    pub open spec fn kind(self) -> ErrorKind {
        match self {
            Fault::UnsupportedLayout | Fault::EmptyImage => ErrorKind::Decode,
            Fault::TooLarge | Fault::EmptySize => ErrorKind::Encode,
        }
    }

    /// What the message of the error says after its prefix.
    pub open spec fn cause(self) -> Seq<char> {
        match self {
            Fault::UnsupportedLayout => "the pixel layout is not supported"@,
            Fault::EmptyImage => "the image has no pixels"@,
            Fault::TooLarge => "the requested size is too large"@,
            Fault::EmptySize => "the requested size has no pixels"@,
        }
    }

    /// The error that reports the fault.
    pub fn error(self) -> (error: ConvertError)
        ensures
            reports(error, self),
            well_prefixed(error),
    {
        match self {
            Fault::UnsupportedLayout => ConvertError::new(
                ErrorKind::Decode,
                "the pixel layout is not supported",
            ),
            Fault::EmptyImage => ConvertError::new(ErrorKind::Decode, "the image has no pixels"),
            Fault::TooLarge => ConvertError::new(ErrorKind::Encode, "the requested size is too large"),
            Fault::EmptySize => ConvertError::new(
                ErrorKind::Encode,
                "the requested size has no pixels",
            ),
        }
    }
}

/// Whether `error` is the error that reports `fault`.
pub open spec fn reports(error: ConvertError, fault: Fault) -> bool {
    error.kind == fault.kind() && error.message@ == message_prefix(fault.kind()) + fault.cause()
}

/// The error that reports a fault begins with the prefix of its kind.
pub proof fn lemma_report_is_prefixed(error: ConvertError, fault: Fault)
    requires
        reports(error, fault),
    ensures
        well_prefixed(error),
{
    lemma_prefixed(error, fault.cause());
}

/// Whether `img` can be resized to `width` by `height`: the buffers of the
/// resize are within what a vector can hold.
pub open spec fn resizable(img: image::DynamicImage, width: u32, height: u32) -> bool {
    &&& buffer_fits(width_of(img), height as nat, 16)
    &&& buffer_fits(width as nat, height as nat, 16)
}

/// The fault for which a passport photo cannot be converted to `width` by
/// `height`, if there is one.
pub open spec fn passport_photo_fault(img: image::DynamicImage, width: u32, height: u32) -> Option<
    Fault,
> {
    if !layout_of(img).integer_samples() {
        Some(Fault::UnsupportedLayout)
    } else if !resizable(img, width, height) {
        Some(Fault::TooLarge)
    } else if !walkable(width as nat, height as nat) {
        Some(Fault::EmptySize)
    } else {
        None
    }
}

/// The fault for which a signature cannot be converted to `width` by
/// `height`, if there is one.
pub open spec fn signature_fault(img: image::DynamicImage, width: u32, height: u32) -> Option<Fault> {
    if !walkable(width_of(img), height_of(img)) {
        Some(Fault::EmptyImage)
    } else if !resizable(img, width, height) {
        Some(Fault::TooLarge)
    } else if !walkable(width as nat, height as nat) {
        Some(Fault::EmptySize)
    } else {
        None
    }
}

/// The fault for which a generic document cannot be converted, if there is
/// one.
pub open spec fn generic_document_fault(img: image::DynamicImage) -> Option<Fault> {
    if !layout_of(img).integer_samples() {
        Some(Fault::UnsupportedLayout)
    } else if !walkable(width_of(img), height_of(img)) {
        Some(Fault::EmptyImage)
    } else {
        None
    }
}

/// Whether `resized` is `src` resized to `width` by `height`: what
/// resampling `src` with a Lanczos filter of radius 3 gave, an image of that
/// size and of the layout of `src`, with the samples of `src` where `src` has
/// that size already.
pub open spec fn is_resized(
    resized: image::DynamicImage,
    src: image::DynamicImage,
    width: u32,
    height: u32,
) -> bool {
    &&& width_of(resized) == width
    &&& height_of(resized) == height
    &&& layout_of(resized) == layout_of(src)
    &&& resampled(resized, src, width as nat, height as nat, ResizeFilter::Lanczos3)
    &&& width_of(src) == width && height_of(src) == height ==> samples_of(resized) == samples_of(src)
}

/// Whether `out` is the enhanced form of the passport photo `img`: `img`
/// brightened.
pub open spec fn is_enhanced_photo(out: image::DynamicImage, img: image::DynamicImage) -> bool {
    is_brightened(out, img, PHOTO_BRIGHTNESS as int) && is_compact(out)
}

/// Whether `out` is an enhanced form of the signature `img`: the
/// binarization, at the signature threshold, of what raising the contrast of
/// `img` by the signature contrast gave, an image of the size and layout of
/// `img`.
pub open spec fn is_enhanced_signature(out: image::DynamicImage, img: image::DynamicImage) -> bool {
    &&& width_of(out) == width_of(img)
    &&& height_of(out) == height_of(img)
    &&& layout_of(out) == PixelLayout::Rgb8
    &&& is_compact(out)
    &&& rgb_samples_of(out).len() == 3 * width_of(img) * height_of(img)
    &&& samples_of(out) == as_ints(rgb_samples_of(out))
    &&& is_binary(rgb_samples_of(out))
    &&& exists|contrasted: image::DynamicImage|
        {
            &&& #[trigger] contrast_raised(contrasted, img, SIGNATURE_CONTRAST as int)
            &&& same_shape(contrasted, img)
            &&& is_compact(contrasted)
            &&& layout_of(img).integer_samples() ==> keeps_extremes(contrasted, img)
            &&& layout_of(img) == PixelLayout::Luma8 ==> repeats_levels(
                rgb_samples_of(contrasted),
                samples_of(contrasted),
            )
            &&& rgb_samples_of(out) == binarized(rgb_samples_of(contrasted), SIGNATURE_THRESHOLD)
        }
}

/// Whether `out` is an enhanced form of the generic document `img`: what
/// raising the contrast of `img` brightened gave, by the contrast and the
/// brightness of a generic document, an image of the size and layout of
/// `img`.
pub open spec fn is_enhanced_document(out: image::DynamicImage, img: image::DynamicImage) -> bool {
    &&& same_shape(out, img)
    &&& is_compact(out)
    &&& exists|adjusted: image::DynamicImage| #[trigger]
        is_brightened(adjusted, img, DOCUMENT_BRIGHTNESS as int) && is_compact(adjusted)
            && same_shape(out, adjusted) && contrast_raised(
            out,
            adjusted,
            DOCUMENT_CONTRAST as int,
        )
}

/// Whether `out` is a passport photo of `width` by `height` made from `img`:
/// the enhanced form of `img` resized. Where `img` has that size already,
/// `out` is `img` brightened.
pub open spec fn is_passport_photo(
    out: image::DynamicImage,
    img: image::DynamicImage,
    width: u32,
    height: u32,
) -> bool {
    &&& width_of(out) == width
    &&& height_of(out) == height
    &&& layout_of(out) == layout_of(img)
    &&& is_compact(out)
    &&& exists|resized: image::DynamicImage| #[trigger]
        is_resized(resized, img, width, height) && is_enhanced_photo(out, resized)
    &&& width_of(img) == width && height_of(img) == height ==> is_brightened(
        out,
        img,
        PHOTO_BRIGHTNESS as int,
    )
}

/// Whether `out` is a signature of `width` by `height` made from `img`: the
/// enhanced form of the grayscale form of `img` resized. It is an 8-bit RGB
/// image of that size in which every pixel is pure black or pure white.
pub open spec fn is_signature(
    out: image::DynamicImage,
    img: image::DynamicImage,
    width: u32,
    height: u32,
) -> bool {
    &&& width_of(out) == width
    &&& height_of(out) == height
    &&& layout_of(out) == PixelLayout::Rgb8
    &&& is_compact(out)
    &&& rgb_samples_of(out).len() == 3 * width * height
    &&& is_binary(rgb_samples_of(out))
    &&& exists|gray: image::DynamicImage, resized: image::DynamicImage|
        is_grayscale_of(gray, img) && #[trigger] is_resized(resized, gray, width, height)
            && is_enhanced_signature(out, resized)
}

/// Whether `out` is what transforming `img` as a document of the given kind
/// gives under the requirements of `format`, where it gives an image.
pub open spec fn is_output(
    out: image::DynamicImage,
    img: image::DynamicImage,
    kind: DocumentKind,
    format: ExamFormatSpec,
) -> bool {
    match kind {
        DocumentKind::PassportPhoto => is_passport_photo(
            out,
            img,
            format.requirements.photo_size.width,
            format.requirements.photo_size.height,
        ),
        DocumentKind::Signature => is_signature(
            out,
            img,
            format.requirements.signature_size.width,
            format.requirements.signature_size.height,
        ),
        DocumentKind::Generic => is_enhanced_document(out, img),
    }
}

/// The fault for which a decoded image cannot be transformed, if there is
/// one.
pub open spec fn transform_fault(img: image::DynamicImage, kind: DocumentKind, format: ExamFormatSpec) -> Option<
    Fault,
> {
    match kind {
        DocumentKind::PassportPhoto => passport_photo_fault(
            img,
            format.requirements.photo_size.width,
            format.requirements.photo_size.height,
        ),
        DocumentKind::Signature => signature_fault(
            img,
            format.requirements.signature_size.width,
            format.requirements.signature_size.height,
        ),
        DocumentKind::Generic => generic_document_fault(img),
    }
}

/// Whether `res` is what transforming `img` as a document of the given kind
/// gives under the requirements of `format`.
pub open spec fn is_transformed(
    res: Result<image::DynamicImage, ConvertError>,
    img: image::DynamicImage,
    kind: DocumentKind,
    format: ExamFormatSpec,
) -> bool {
    match res {
        Ok(out) => transform_fault(img, kind, format) is None && is_output(out, img, kind, format),
        Err(error) => transform_fault(img, kind, format) matches Some(fault) && reports(error, fault),
    }
}

/// Size of the image that a conversion writes out.
pub open spec fn output_size(img: image::DynamicImage, kind: DocumentKind, format: ExamFormatSpec) -> (
    nat,
    nat,
) {
    match kind {
        DocumentKind::PassportPhoto => (
            format.requirements.photo_size.width as nat,
            format.requirements.photo_size.height as nat,
        ),
        DocumentKind::Signature => (
            format.requirements.signature_size.width as nat,
            format.requirements.signature_size.height as nat,
        ),
        DocumentKind::Generic => (width_of(img), height_of(img)),
    }
}

/// How the conversion of a decoded image ends: with the kind of its error,
/// or with none where it succeeds. It succeeds where the image can be
/// transformed and a JPEG frame can have the size of the result.
pub open spec fn failure_of(img: image::DynamicImage, kind: DocumentKind, format: ExamFormatSpec) -> Option<
    ErrorKind,
> {
    let (width, height) = output_size(img, kind, format);
    match transform_fault(img, kind, format) {
        Some(fault) => Some(fault.kind()),
        None => if jpeg_size(width, height) {
            None
        } else {
            Some(ErrorKind::Encode)
        },
    }
}

/// The image that a transform gives has the size that the conversion writes
/// out: the required size for a passport photo and for a signature, the size
/// of the decoded image for every other document.
pub proof fn lemma_output_has_output_size(
    out: image::DynamicImage,
    img: image::DynamicImage,
    kind: DocumentKind,
    format: ExamFormatSpec,
)
    requires
        is_output(out, img, kind, format),
    ensures
        (width_of(out), height_of(out)) == output_size(img, kind, format),
        kind == DocumentKind::Signature ==> is_binary(rgb_samples_of(out)),
{
}

proof fn lemma_smaller_buffer_fits(width: nat, height: nat)
    requires
        buffer_fits(width, height, 16),
    ensures
        buffer_fits(width, height, 3),
{
    assert(3 * width * height <= 16 * width * height) by (nonlinear_arith);
}

/// Whether the message of `error` is, after its prefix, what an error of the
/// `image` crate says of itself.
pub open spec fn names_image_error(error: ConvertError) -> bool {
    exists|cause: image::ImageError, text: Seq<char>| #[trigger]
        image_error_says(cause, text) && error.message@ == message_prefix(error.kind) + text
}

/// Whether `decoded` is what decoding `bytes` gives: the image that they
/// hold, or a decode error where they hold none.
pub open spec fn is_decoded(decoded: Result<image::DynamicImage, ConvertError>, bytes: Seq<u8>) -> bool {
    match decoded {
        Ok(img) => image_in(bytes) == Some(img),
        Err(error) => {
            &&& image_in(bytes) is None
            &&& error.kind == ErrorKind::Decode
            &&& well_prefixed(error)
            &&& names_image_error(error)
        },
    }
}

/// Whether `res` is what converting the decoded image `img` gives: it ends
/// as `failure_of` says, and where it succeeds, in the JPEG stream of an image
/// that transforming `img` can give.
pub open spec fn is_converted_image(
    res: Result<Vec<u8>, ConvertError>,
    img: image::DynamicImage,
    kind: DocumentKind,
    format: ExamFormatSpec,
) -> bool {
    match res {
        Ok(bytes) => {
            &&& failure_of(img, kind, format) is None
            &&& starts_as_jpeg(bytes@)
            &&& exists|out: image::DynamicImage| #[trigger]
                is_output(out, img, kind, format) && bytes@ == jpeg_stream_of(out)
        },
        Err(error) => {
            &&& failure_of(img, kind, format) == Some(error.kind)
            &&& well_prefixed(error)
            &&& transform_fault(img, kind, format) matches Some(fault) ==> reports(error, fault)
            &&& transform_fault(img, kind, format) is None ==> names_image_error(error)
        },
    }
}

/// Whether `res` is what converting gives once decoding gave `decoded`: a
/// decode error is handed on, a decoded image is converted.
pub open spec fn is_converted(
    res: Result<Vec<u8>, ConvertError>,
    decoded: Result<image::DynamicImage, ConvertError>,
    kind: DocumentKind,
    format: ExamFormatSpec,
) -> bool {
    match decoded {
        Ok(img) => is_converted_image(res, img, kind, format),
        Err(cause) => res == Err::<Vec<u8>, ConvertError>(cause),
    }
}

/// Whether `res` is what converting a document gives: a parse error where
/// the descriptor stands for no exam format; else a decode error where the
/// bytes hold no image; else what converting the image that they hold gives,
/// as a document of the kind that the tag stands for. The name of the file
/// has no part in it.
pub open spec fn is_document_conversion(
    res: Result<Vec<u8>, ConvertError>,
    file_data: Seq<u8>,
    document_type: Seq<char>,
    exam_format_json: Seq<char>,
) -> bool {
    match exam_format_in(exam_format_json) {
        Some(format) => match image_in(file_data) {
            Some(img) => is_converted_image(res, img, kind_of_tag(document_type), format),
            None => res matches Err(error) && error.kind == ErrorKind::Decode && well_prefixed(error)
                && names_image_error(error),
        },
        None => res matches Err(error) && is_parse_error_of(error, exam_format_json),
    }
}

/// Two conversions of the same bytes, under the same tag and the same
/// descriptor, end alike: both succeed, or both fail with an error of the
/// same kind.
pub proof fn lemma_same_document_same_outcome(
    first: Result<Vec<u8>, ConvertError>,
    second: Result<Vec<u8>, ConvertError>,
    file_data: Seq<u8>,
    document_type: Seq<char>,
    exam_format_json: Seq<char>,
)
    requires
        is_document_conversion(first, file_data, document_type, exam_format_json),
        is_document_conversion(second, file_data, document_type, exam_format_json),
    ensures
        first is Ok <==> second is Ok,
        first matches Err(a) ==> second matches Err(b) && a.kind == b.kind,
{
}

/// Whether `img` can be resized to `width` by `height`.
pub fn can_resize(img: &image::DynamicImage, width: u32, height: u32) -> (b: bool)
    ensures
        b == resizable(*img, width, height),
{
    fits_in_buffer(image_width(img), height, 16) && fits_in_buffer(width, height, 16)
}

/// Binarizes an image: every pixel whose luminance is strictly above
/// `threshold` becomes white, every other pixel black. The result is an 8-bit
/// RGB image of the same size.
pub fn apply_threshold(img: image::DynamicImage, threshold: u8) -> (out: image::DynamicImage)
    requires
        buffer_fits(width_of(img), height_of(img), 3),
    ensures
        width_of(out) == width_of(img),
        height_of(out) == height_of(img),
        layout_of(out) == PixelLayout::Rgb8,
        is_compact(out),
        rgb_samples_of(out) == binarized(rgb_samples_of(img), threshold),
        rgb_samples_of(out).len() == 3 * width_of(img) * height_of(img),
        samples_of(out) == as_ints(rgb_samples_of(out)),
        layout_of(img) == PixelLayout::Rgb8 ==> samples_of(img) == as_ints(rgb_samples_of(img)),
        layout_of(img) == PixelLayout::Luma8 ==> repeats_levels(rgb_samples_of(img), samples_of(img)),
{
    let width = image_width(&img);
    let height = image_height(&img);
    let mut samples = rgb_samples(&img);
    threshold_samples(&mut samples, threshold);
    assert(samples@.subrange(0, 3 * width * height) =~= samples@);
    match image_from_rgb(width, height, samples) {
        Some(out) => out,
        None => unreached(),
    }
}

/// The sharpening step of the photo enhancement. It hands the image back as
/// it is.
pub fn apply_sharpen_filter(img: image::DynamicImage) -> (out: image::DynamicImage)
    ensures
        out == img,
{
    img
}

/// Enhances a passport photo: brightens it, then passes it through the
/// sharpening step.
pub fn enhance_image_quality(img: image::DynamicImage) -> (out: image::DynamicImage)
    requires
        layout_of(img).integer_samples(),
        walkable(width_of(img), height_of(img)),
    ensures
        is_enhanced_photo(out, img),
{
    let adjusted = brighten(&img, PHOTO_BRIGHTNESS);
    apply_sharpen_filter(adjusted)
}

/// Enhances a signature: raises the contrast, then binarizes.
pub fn enhance_signature(img: image::DynamicImage) -> (out: image::DynamicImage)
    requires
        walkable(width_of(img), height_of(img)),
        buffer_fits(width_of(img), height_of(img), 3),
    ensures
        is_enhanced_signature(out, img),
{
    let contrasted = adjust_contrast(&img, SIGNATURE_CONTRAST);
    let ghost middle = contrasted;
    let out = apply_threshold(contrasted, SIGNATURE_THRESHOLD);
    proof {
        lemma_binarized_is_binary(rgb_samples_of(middle), SIGNATURE_THRESHOLD);
        assert(contrast_raised(middle, img, SIGNATURE_CONTRAST as int) && rgb_samples_of(out)
            == binarized(rgb_samples_of(middle), SIGNATURE_THRESHOLD));
    }
    out
}

/// Enhances a generic document: brightens it, then raises the contrast.
pub fn enhance_document(img: image::DynamicImage) -> (out: image::DynamicImage)
    requires
        layout_of(img).integer_samples(),
        walkable(width_of(img), height_of(img)),
    ensures
        is_enhanced_document(out, img),
{
    let adjusted = brighten(&img, DOCUMENT_BRIGHTNESS);
    let out = adjust_contrast(&adjusted, DOCUMENT_CONTRAST);
    assert(is_brightened(adjusted, img, DOCUMENT_BRIGHTNESS as int) && contrast_raised(
        out,
        adjusted,
        DOCUMENT_CONTRAST as int,
    ));
    out
}

/// Converts a passport photo: resizes it to exactly the required size with a
/// Lanczos filter of radius 3, without keeping the aspect ratio, then
/// enhances it.
pub fn convert_passport_photo(img: image::DynamicImage, requirements: &PhotoRequirements) -> (res:
    Result<image::DynamicImage, ConvertError>)
    ensures
        match res {
            Ok(out) => passport_photo_fault(img, requirements.width, requirements.height) is None
                && is_passport_photo(out, img, requirements.width, requirements.height),
            Err(error) => passport_photo_fault(img, requirements.width, requirements.height) matches Some(
                fault,
            ) && reports(error, fault),
        },
{
    if !pixel_layout(&img).has_integer_samples() {
        return Err(Fault::UnsupportedLayout.error());
    }
    if !can_resize(&img, requirements.width, requirements.height) {
        return Err(Fault::TooLarge.error());
    }
    if !can_walk(requirements.width, requirements.height) {
        return Err(Fault::EmptySize.error());
    }
    let resized = resize_exact(&img, requirements.width, requirements.height, ResizeFilter::Lanczos3);
    let ghost middle = resized;
    let enhanced = enhance_image_quality(resized);
    assert(is_resized(middle, img, requirements.width, requirements.height) && is_enhanced_photo(
        enhanced,
        middle,
    ));
    Ok(enhanced)
}

/// Converts a signature: turns it to grayscale, resizes it to exactly the
/// required size with a Lanczos filter of radius 3, without keeping the
/// aspect ratio, then enhances it into pure black and pure white.
pub fn convert_signature(img: image::DynamicImage, requirements: &SignatureRequirements) -> (res:
    Result<image::DynamicImage, ConvertError>)
    ensures
        match res {
            Ok(out) => signature_fault(img, requirements.width, requirements.height) is None
                && is_signature(out, img, requirements.width, requirements.height),
            Err(error) => signature_fault(img, requirements.width, requirements.height) matches Some(
                fault,
            ) && reports(error, fault),
        },
{
    if !can_walk(image_width(&img), image_height(&img)) {
        return Err(Fault::EmptyImage.error());
    }
    if !can_resize(&img, requirements.width, requirements.height) {
        return Err(Fault::TooLarge.error());
    }
    if !can_walk(requirements.width, requirements.height) {
        return Err(Fault::EmptySize.error());
    }
    let gray = grayscale(&img);
    let resized = resize_exact(&gray, requirements.width, requirements.height, ResizeFilter::Lanczos3);
    proof {
        lemma_smaller_buffer_fits(requirements.width as nat, requirements.height as nat);
    }
    let ghost middle = resized;
    let out = enhance_signature(resized);
    assert(is_grayscale_of(gray, img) && is_resized(
        middle,
        gray,
        requirements.width,
        requirements.height,
    ) && is_enhanced_signature(out, middle));
    Ok(out)
}

/// Converts a generic document: enhances it at its own size.
pub fn convert_generic_document(img: image::DynamicImage) -> (res: Result<
    image::DynamicImage,
    ConvertError,
>)
    ensures
        match res {
            Ok(out) => generic_document_fault(img) is None && is_enhanced_document(out, img),
            Err(error) => generic_document_fault(img) matches Some(fault) && reports(error, fault),
        },
{
    if !pixel_layout(&img).has_integer_samples() {
        return Err(Fault::UnsupportedLayout.error());
    }
    if !can_walk(image_width(&img), image_height(&img)) {
        return Err(Fault::EmptyImage.error());
    }
    Ok(enhance_document(img))
}

/// Transforms a decoded image as a document of the given kind.
pub fn transform(img: image::DynamicImage, kind: DocumentKind, format: &ExamFormat) -> (res: Result<
    image::DynamicImage,
    ConvertError,
>)
    ensures
        is_transformed(res, img, kind, format@),
{
    match kind {
        DocumentKind::PassportPhoto => convert_passport_photo(img, &format.requirements.photo_size),
        DocumentKind::Signature => convert_signature(img, &format.requirements.signature_size),
        DocumentKind::Generic => convert_generic_document(img),
    }
}

/// Writes an image out as a baseline JPEG stream. An image with a side of 0
/// or of more than 65535 pixels is an encode error.
pub fn encode(img: &image::DynamicImage) -> (res: Result<Vec<u8>, ConvertError>)
    requires
        is_compact(*img),
    ensures
        match res {
            Ok(bytes) => {
                &&& jpeg_size(width_of(*img), height_of(*img))
                &&& bytes@ == jpeg_stream_of(*img)
                &&& starts_as_jpeg(bytes@)
            },
            Err(error) => {
                &&& !jpeg_size(width_of(*img), height_of(*img))
                &&& error.kind == ErrorKind::Encode
                &&& well_prefixed(error)
                &&& names_image_error(error)
            },
        },
{
    match encode_jpeg(img) {
        Ok(bytes) => Ok(bytes),
        Err(cause) => Err(error_of(ErrorKind::Encode, &cause)),
    }
}

/// The error of the given kind whose message names an error of the `image`
/// crate.
pub fn error_of(kind: ErrorKind, cause: &image::ImageError) -> (error: ConvertError)
    ensures
        error.kind == kind,
        well_prefixed(error),
        exists|text: Seq<char>| #[trigger]
            image_error_says(*cause, text) && error.message@ == message_prefix(kind) + text,
        names_image_error(error),
{
    let said = image_error_text(cause);
    let error = ConvertError::new(kind, said.as_str());
    assert(image_error_says(*cause, said@) && error.message@ == message_prefix(kind) + said@);
    error
}

/// What the message of an encode error says after its prefix where the image
/// holds samples beyond those of its pixels.
pub open spec fn spare_samples() -> Seq<char> {
    "the image holds samples beyond its pixels"@
}

/// Writes an image out as a baseline JPEG stream where it holds the samples
/// of its pixels and no more. An image that holds more is an encode error,
/// as is one with a side of 0 or of more than 65535 pixels.
pub fn encode_if_compact(img: &image::DynamicImage) -> (res: Result<Vec<u8>, ConvertError>)
    ensures
        match res {
            Ok(bytes) => {
                &&& is_compact(*img)
                &&& jpeg_size(width_of(*img), height_of(*img))
                &&& bytes@ == jpeg_stream_of(*img)
                &&& starts_as_jpeg(bytes@)
            },
            Err(error) => {
                &&& !is_compact(*img) || !jpeg_size(width_of(*img), height_of(*img))
                &&& error.kind == ErrorKind::Encode
                &&& well_prefixed(error)
                &&& !is_compact(*img) ==> error.message@ == message_prefix(ErrorKind::Encode)
                    + spare_samples()
                &&& is_compact(*img) ==> names_image_error(error)
            },
        },
{
    if holds_no_spare_samples(img) {
        encode(img)
    } else {
        Err(ConvertError::new(ErrorKind::Encode, "the image holds samples beyond its pixels"))
    }
}

/// Converts a decoded image: transforms it as a document of the given kind
/// and writes the result out as JPEG.
pub fn convert_image(img: image::DynamicImage, kind: DocumentKind, format: &ExamFormat) -> (res:
    Result<Vec<u8>, ConvertError>)
    ensures
        is_converted_image(res, img, kind, format@),
{
    match transform(img, kind, format) {
        Ok(converted) => {
            let res = encode(&converted);
            assert(res is Ok ==> is_output(converted, img, kind, format@));
            res
        },
        Err(error) => {
            proof {
                lemma_report_is_prefixed(error, transform_fault(img, kind, format@).unwrap());
            }
            Err(error)
        },
    }
}

/// Converts what decoding gave: a decoded image is transformed and written
/// out, a decode error is handed on.
pub fn convert_decoded(
    decoded: Result<image::DynamicImage, ConvertError>,
    kind: DocumentKind,
    format: &ExamFormat,
) -> (res: Result<Vec<u8>, ConvertError>)
    ensures
        is_converted(res, decoded, kind, format@),
{
    match decoded {
        Ok(img) => convert_image(img, kind, format),
        Err(cause) => Err(cause),
    }
}

/// Decodes an image from bytes in any format that the decoder knows by its
/// first bytes. Bytes that are no such image are a decode error.
pub fn decode(file_data: &[u8]) -> (res: Result<image::DynamicImage, ConvertError>)
    ensures
        is_decoded(res, file_data@),
{
    decoded_from(decode_image(file_data))
}

/// What the decoder gave, as a result of this library: its image as it is,
/// or a decode error whose message names the decoder's error.
pub fn decoded_from(outcome: Result<image::DynamicImage, image::ImageError>) -> (res: Result<
    image::DynamicImage,
    ConvertError,
>)
    ensures
        match outcome {
            Ok(img) => res == Ok::<image::DynamicImage, ConvertError>(img),
            Err(cause) => res matches Err(error) && error.kind == ErrorKind::Decode
                && well_prefixed(error) && names_image_error(error) && exists|text: Seq<char>| #[trigger]
                image_error_says(cause, text) && error.message@ == message_prefix(
                    ErrorKind::Decode,
                ) + text,
        },
{
    match outcome {
        Ok(img) => Ok(img),
        Err(cause) => Err(error_of(ErrorKind::Decode, &cause)),
    }
}

/// Converts a submitted document into a JPEG image that meets the
/// requirements of an exam.
///
/// `file_data` holds the image, `file_name` its name, which changes nothing,
/// `document_type` the tag of its kind, and `exam_format_json` the descriptor
/// of the exam format. The descriptor is read first: a descriptor that is no
/// JSON or does not match the schema is a parse error, whatever the other
/// arguments hold. Then the image is decoded: bytes that hold no image are a
/// decode error. The image that they hold is converted as a document of the
/// kind that the tag stands for, under the exam format that the descriptor
/// stands for.
#[allow(unused_variables)]
pub fn convert_document(
    file_data: &[u8],
    file_name: &str,
    document_type: &str,
    exam_format_json: &str,
) -> (res: Result<Vec<u8>, ConvertError>)
    ensures
        is_document_conversion(res, file_data@, document_type@, exam_format_json@),
        match res {
            Ok(bytes) => exam_format_in(exam_format_json@) is Some && starts_as_jpeg(bytes@),
            Err(error) => {
                &&& error.kind == ErrorKind::Parse <==> exam_format_in(exam_format_json@) is None
                &&& well_prefixed(error)
            },
        },
{
    let format = match parse_exam_format(exam_format_json) {
        Ok(format) => format,
        Err(error) => {
            return Err(error);
        },
    };
    let kind = DocumentKind::from_tag(document_type);
    convert_decoded(decode(file_data), kind, &format)
}

/// Converting a signature that came out of a conversion to the same size
/// gives its pixels again.
pub proof fn lemma_signature_is_stable(
    img: image::DynamicImage,
    once: image::DynamicImage,
    twice: image::DynamicImage,
    width: u32,
    height: u32,
)
    requires
        is_signature(once, img, width, height),
        is_signature(twice, once, width, height),
    ensures
        rgb_samples_of(twice) == rgb_samples_of(once),
{
    let first = rgb_samples_of(once);
    let (gray, resized) = choose|gray: image::DynamicImage, resized: image::DynamicImage|
        is_grayscale_of(gray, once) && #[trigger] is_resized(resized, gray, width, height)
            && is_enhanced_signature(twice, resized);
    let contrasted = choose|contrasted: image::DynamicImage|
        {
            &&& #[trigger] contrast_raised(contrasted, resized, SIGNATURE_CONTRAST as int)
            &&& same_shape(contrasted, resized)
            &&& is_compact(contrasted)
            &&& layout_of(resized).integer_samples() ==> keeps_extremes(contrasted, resized)
            &&& layout_of(resized) == PixelLayout::Luma8 ==> repeats_levels(
                rgb_samples_of(contrasted),
                samples_of(contrasted),
            )
            &&& rgb_samples_of(twice) == binarized(rgb_samples_of(contrasted), SIGNATURE_THRESHOLD)
        };
    let levels = samples_of(gray);
    let raised = samples_of(contrasted);
    let second = rgb_samples_of(contrasted);
    // The first run left as many samples as the second one reads.
    lemma_samples_of_signature(once, img, width, height);
    assert(samples_of(once) == as_ints(first));
    assert(levels.len() * 3 == first.len());
    assert(samples_of(resized) == levels);
    assert(raised.len() == levels.len());
    assert(second.len() == first.len());
    assert forall|i: int| 0 <= i < first.len() implies binarized_at(
        second,
        SIGNATURE_THRESHOLD,
        i,
    ) == first[i] by {
        let p = i / 3;
        // The pixel is black or white, so its gray level is its own value.
        assert(first[3 * p] == first[3 * p + 1] && first[3 * p] == first[3 * p + 2]);
        assert(i == 3 * p || i == 3 * p + 1 || i == 3 * p + 2);
        assert(levels[p] == gray_sample(PixelLayout::Rgb8, as_ints(first), p));
        assert(levels[p] == first[3 * p] as int);
        // Raising the contrast keeps black and white, and the RGB form repeats them.
        assert(raised[p] == levels[p]);
        assert((3 * p) / 3 == p && (3 * p + 1) / 3 == p && (3 * p + 2) / 3 == p);
        assert(second[3 * p] as int == raised[p]);
        assert(second[3 * p + 1] as int == raised[p]);
        assert(second[3 * p + 2] as int == raised[p]);
    }
    assert(rgb_samples_of(twice) =~= first);
}

/// The samples of a signature are those of its RGB form.
proof fn lemma_samples_of_signature(
    out: image::DynamicImage,
    img: image::DynamicImage,
    width: u32,
    height: u32,
)
    requires
        is_signature(out, img, width, height),
    ensures
        samples_of(out) == as_ints(rgb_samples_of(out)),
{
    let (gray, resized) = choose|gray: image::DynamicImage, resized: image::DynamicImage|
        is_grayscale_of(gray, img) && #[trigger] is_resized(resized, gray, width, height)
            && is_enhanced_signature(out, resized);
}

/// Binarizing the result of a binarization with the same threshold gives
/// the same pixels again.
pub proof fn lemma_threshold_is_stable(
    img: image::DynamicImage,
    once: image::DynamicImage,
    twice: image::DynamicImage,
    threshold: u8,
)
    requires
        rgb_samples_of(once) == binarized(rgb_samples_of(img), threshold),
        rgb_samples_of(twice) == binarized(rgb_samples_of(once), threshold),
    ensures
        rgb_samples_of(twice) == rgb_samples_of(once),
{
    lemma_binarized_idempotent(rgb_samples_of(img), threshold);
}

} // verus!
