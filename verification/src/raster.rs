//! In-memory images, and the operations of the `image` crate that the
//! conversion pipeline is built from.
//!
//! An image is carried as an `image::DynamicImage`. What the contracts say of
//! one is said over its size, its pixel layout and its samples.

use vstd::prelude::*;

verus! {

#[verifier::external_type_specification]
#[verifier::external_body]
pub struct ExDynamicImage(image::DynamicImage);

#[verifier::external_type_specification]
#[verifier::external_body]
pub struct ExImageError(image::ImageError);

/// How the samples of one pixel are laid out.
#[derive(Clone, Copy, Debug, PartialEq, Eq, Structural)]
pub enum PixelLayout {
    Luma8,
    LumaAlpha8,
    Rgb8,
    Rgba8,
    Luma16,
    LumaAlpha16,
    Rgb16,
    Rgba16,
    Rgb32F,
    Rgba32F,
    /// A layout that this library has no name for.
    Other,
}

impl PixelLayout {
    /// Whether the samples are unsigned integers of 8 or 16 bits.
    pub open spec fn integer_samples(self) -> bool {
        match self {
            PixelLayout::Rgb32F | PixelLayout::Rgba32F | PixelLayout::Other => false,
            _ => true,
        }
    }

    /// Number of samples per pixel.
    pub open spec fn channels(self) -> int {
        match self {
            PixelLayout::Luma8 | PixelLayout::Luma16 => 1,
            PixelLayout::LumaAlpha8 | PixelLayout::LumaAlpha16 => 2,
            PixelLayout::Rgb8 | PixelLayout::Rgb16 | PixelLayout::Rgb32F => 3,
            PixelLayout::Rgba8 | PixelLayout::Rgba16 | PixelLayout::Rgba32F => 4,
            PixelLayout::Other => 1,
        }
    }

    /// Whether the last sample of each pixel is its opacity.
    pub open spec fn has_alpha(self) -> bool {
        match self {
            PixelLayout::LumaAlpha8
            | PixelLayout::Rgba8
            | PixelLayout::LumaAlpha16
            | PixelLayout::Rgba16
            | PixelLayout::Rgba32F => true,
            _ => false,
        }
    }

    /// Largest value of a sample of an integer layout.
    pub open spec fn max_sample(self) -> int {
        match self {
            PixelLayout::Luma8 | PixelLayout::LumaAlpha8 | PixelLayout::Rgb8 | PixelLayout::Rgba8 => 255,
            _ => 65535,
        }
    }

    /// The layout of the grayscale form of an image of this layout: colour
    /// channels of integer layouts collapse into one luminance channel.
    pub open spec fn grayscale(self) -> PixelLayout {
        match self {
            PixelLayout::Rgb8 => PixelLayout::Luma8,
            PixelLayout::Rgba8 => PixelLayout::LumaAlpha8,
            PixelLayout::Rgb16 => PixelLayout::Luma16,
            PixelLayout::Rgba16 => PixelLayout::LumaAlpha16,
            other => other,
        }
    }

    /// Number of bytes that the samples of one pixel take; 0 for a layout
    /// without a name.
    pub open spec fn bytes_per_pixel(self) -> nat {
        match self {
            PixelLayout::Luma8 => 1,
            PixelLayout::LumaAlpha8 | PixelLayout::Luma16 => 2,
            PixelLayout::Rgb8 => 3,
            PixelLayout::Rgba8 | PixelLayout::LumaAlpha16 => 4,
            PixelLayout::Rgb16 => 6,
            PixelLayout::Rgba16 => 8,
            PixelLayout::Rgb32F => 12,
            PixelLayout::Rgba32F => 16,
            PixelLayout::Other => 0,
        }
    }

    /// Number of bytes that the samples of one pixel take.
    pub fn pixel_bytes(&self) -> (n: u8)
        ensures
            n == self.bytes_per_pixel(),
    {
        match self {
            PixelLayout::Luma8 => 1,
            PixelLayout::LumaAlpha8 | PixelLayout::Luma16 => 2,
            PixelLayout::Rgb8 => 3,
            PixelLayout::Rgba8 | PixelLayout::LumaAlpha16 => 4,
            PixelLayout::Rgb16 => 6,
            PixelLayout::Rgba16 => 8,
            PixelLayout::Rgb32F => 12,
            PixelLayout::Rgba32F => 16,
            PixelLayout::Other => 0,
        }
    }

    /// Whether the samples are unsigned integers of 8 or 16 bits.
    pub fn has_integer_samples(&self) -> (b: bool)
        ensures
            b == self.integer_samples(),
    {
        match self {
            PixelLayout::Rgb32F | PixelLayout::Rgba32F | PixelLayout::Other => false,
            _ => true,
        }
    }
}

/// Resampling filter of a resize.
#[derive(Clone, Copy, Debug, PartialEq, Eq, Structural)]
pub enum ResizeFilter {
    Nearest,
    Triangle,
    CatmullRom,
    Gaussian,
    Lanczos3,
}

/// The image that bytes hold: the one that the decoder of the format that
/// their first bytes tell reads from them, if they tell a format and it reads
/// one.
pub uninterp spec fn image_in(bytes: Seq<u8>) -> Option<image::DynamicImage>;

/// Width of an image, in pixels.
pub uninterp spec fn width_of(img: image::DynamicImage) -> nat;

/// Height of an image, in pixels.
pub uninterp spec fn height_of(img: image::DynamicImage) -> nat;

/// Pixel layout of an image.
pub uninterp spec fn layout_of(img: image::DynamicImage) -> PixelLayout;

/// The samples of an image of an integer layout, pixel after pixel and row
/// after row, each pixel with its channels in the order of its layout.
pub uninterp spec fn samples_of(img: image::DynamicImage) -> Seq<int>;

/// The pixels of an image as 8-bit RGB samples, pixel after pixel and row
/// after row, three samples per pixel.
pub uninterp spec fn rgb_samples_of(img: image::DynamicImage) -> Seq<u8>;

/// The baseline JPEG stream that the encoder writes for an image.
pub uninterp spec fn jpeg_stream_of(img: image::DynamicImage) -> Seq<u8>;

/// Whether `out` is what resampling `src` to `width` by `height` with
/// `filter` gave.
pub uninterp spec fn resampled(
    out: image::DynamicImage,
    src: image::DynamicImage,
    width: nat,
    height: nat,
    filter: ResizeFilter,
) -> bool;

/// Whether `out` is what changing the contrast of `src` by `amount` gave.
pub uninterp spec fn contrast_raised(
    out: image::DynamicImage,
    src: image::DynamicImage,
    amount: int,
) -> bool;

/// Whether `text` is what an error of the `image` crate says of itself.
pub uninterp spec fn image_error_says(error: image::ImageError, text: Seq<char>) -> bool;

/// Number of bytes of the samples that an image holds, those beyond its
/// pixels included.
pub uninterp spec fn stored_bytes_of(img: image::DynamicImage) -> nat;

/// Whether an image holds no samples beyond those of its pixels.
pub open spec fn is_compact(img: image::DynamicImage) -> bool {
    stored_bytes_of(img) == layout_of(img).bytes_per_pixel() * width_of(img) * height_of(img)
}

/// Whether a buffer of `width` by `height` pixels of `bytes_per_pixel` bytes
/// each is within what a vector can hold.
pub open spec fn buffer_fits(width: nat, height: nat, bytes_per_pixel: nat) -> bool {
    bytes_per_pixel * width * height <= isize::MAX
}

/// Whether an image of this size can be gone through pixel by pixel: one
/// without columns has one row at most.
pub open spec fn walkable(width: nat, height: nat) -> bool {
    width > 0 || height <= 1
}

/// Samples of 8 bits as integers.
pub open spec fn as_ints(samples: Seq<u8>) -> Seq<int> {
    samples.map_values(|sample: u8| sample as int)
}

/// The gray level that the grayscale form gives to a colour: the weighted sum
/// 0.2126 R + 0.7152 G + 0.0722 B, rounded down.
pub open spec fn gray_level(red: int, green: int, blue: int) -> int {
    (2126 * red + 7152 * green + 722 * blue) / 10000
}

/// Sample `i` of the grayscale form of the samples of an image of an integer
/// layout: the gray level of each colour, with its opacity where the layout
/// has one; a sample of a layout without colour as it is.
pub open spec fn gray_sample(layout: PixelLayout, samples: Seq<int>, i: int) -> int {
    match layout {
        PixelLayout::Rgb8 | PixelLayout::Rgb16 => gray_level(
            samples[3 * i],
            samples[3 * i + 1],
            samples[3 * i + 2],
        ),
        PixelLayout::Rgba8 | PixelLayout::Rgba16 => if i % 2 == 0 {
            gray_level(samples[2 * i], samples[2 * i + 1], samples[2 * i + 2])
        } else {
            samples[2 * i + 1]
        },
        _ => samples[i],
    }
}

/// `gray` is the grayscale form of `img`: of the same size, of the grayscale
/// layout, and where the samples are integers, with the gray level of every
/// pixel.
pub open spec fn is_grayscale_of(gray: image::DynamicImage, img: image::DynamicImage) -> bool {
    &&& width_of(gray) == width_of(img)
    &&& height_of(gray) == height_of(img)
    &&& layout_of(gray) == layout_of(img).grayscale()
    &&& layout_of(img).integer_samples() ==> {
        &&& samples_of(gray).len() * layout_of(img).channels() == samples_of(img).len() * layout_of(
            gray,
        ).channels()
        &&& forall|i: int|
            0 <= i < samples_of(gray).len() ==> #[trigger] samples_of(gray)[i] == gray_sample(
                layout_of(img),
                samples_of(img),
                i,
            )
    }
}

/// `out` has the extreme samples of `src` where `src` has them: a sample of
/// 0 and a sample at the maximum of the layout are the same in both.
pub open spec fn keeps_extremes(out: image::DynamicImage, src: image::DynamicImage) -> bool {
    &&& samples_of(out).len() == samples_of(src).len()
    &&& forall|i: int|
        0 <= i < samples_of(src).len() ==> {
            &&& samples_of(src)[i] == 0 ==> #[trigger] samples_of(out)[i] == 0
            &&& samples_of(src)[i] == layout_of(src).max_sample() ==> samples_of(out)[i]
                == layout_of(src).max_sample()
        }
}

/// `rgb` holds every gray level of `levels` three times, once for each
/// channel of its pixel.
pub open spec fn repeats_levels(rgb: Seq<u8>, levels: Seq<int>) -> bool {
    &&& rgb.len() == 3 * levels.len()
    &&& forall|i: int| 0 <= i < rgb.len() ==> #[trigger] rgb[i] as int == levels[i / 3]
}

/// Two images have the same size and the same layout.
pub open spec fn same_shape(a: image::DynamicImage, b: image::DynamicImage) -> bool {
    &&& width_of(a) == width_of(b)
    &&& height_of(a) == height_of(b)
    &&& layout_of(a) == layout_of(b)
}

/// Whether sample `i` of an image of this layout is an opacity.
pub open spec fn is_alpha_sample(layout: PixelLayout, i: int) -> bool {
    layout.has_alpha() && i % layout.channels() == layout.channels() - 1
}

/// A sample after brightening by `value`: shifted and kept within the range
/// of the layout; an opacity is kept as it is.
pub open spec fn brightened_sample(layout: PixelLayout, i: int, sample: int, value: int) -> int {
    if is_alpha_sample(layout, i) {
        sample
    } else if sample + value < 0 {
        0
    } else if sample + value > layout.max_sample() {
        layout.max_sample()
    } else {
        sample + value
    }
}

/// `out` is `src` with every colour sample brightened by `value`.
pub open spec fn is_brightened(out: image::DynamicImage, src: image::DynamicImage, value: int) -> bool {
    &&& same_shape(out, src)
    &&& samples_of(out).len() == samples_of(src).len()
    &&& forall|i: int|
        0 <= i < samples_of(src).len() ==> #[trigger] samples_of(out)[i] == brightened_sample(
            layout_of(src),
            i,
            samples_of(src)[i],
            value,
        )
}

/// The first three bytes of a JPEG stream.
pub open spec fn starts_as_jpeg(bytes: Seq<u8>) -> bool {
    bytes.len() >= 3 && bytes[0] == 0xFF && bytes[1] == 0xD8 && bytes[2] == 0xFF
}

/// Whether a JPEG frame can have these dimensions.
pub open spec fn jpeg_size(width: nat, height: nat) -> bool {
    1 <= width <= 65535 && 1 <= height <= 65535
}

/// Number of bytes of a buffer of `width` by `height` pixels of
/// `bytes_per_pixel` bytes each.
pub fn buffer_bytes(width: u32, height: u32, bytes_per_pixel: u8) -> (n: u128)
    ensures
        n == bytes_per_pixel as nat * width as nat * height as nat,
{
    assert(bytes_per_pixel * width <= 0xFF * 0xFFFF_FFFF) by (nonlinear_arith)
        requires
            bytes_per_pixel <= 0xFF,
            width <= 0xFFFF_FFFF,
    ;
    let per_row: u64 = (bytes_per_pixel as u64) * (width as u64);
    assert(per_row * height <= 0xFF * 0xFFFF_FFFF * 0xFFFF_FFFF) by (nonlinear_arith)
        requires
            per_row <= 0xFF * 0xFFFF_FFFF,
            height <= 0xFFFF_FFFF,
    ;
    (per_row as u128) * (height as u128)
}

/// Whether a buffer of this size is within what a vector can hold.
pub fn fits_in_buffer(width: u32, height: u32, bytes_per_pixel: u8) -> (b: bool)
    ensures
        b == buffer_fits(width as nat, height as nat, bytes_per_pixel as nat),
{
    buffer_bytes(width, height, bytes_per_pixel) <= isize::MAX as u128
}

/// Whether an image holds no samples beyond those of its pixels.
pub fn holds_no_spare_samples(img: &image::DynamicImage) -> (b: bool)
    ensures
        b == is_compact(*img),
{
    let needed = buffer_bytes(image_width(img), image_height(img), pixel_layout(img).pixel_bytes());
    stored_bytes(img) as u128 == needed
}

/// Whether an image of this size can be gone through pixel by pixel.
pub fn can_walk(width: u32, height: u32) -> (b: bool)
    ensures
        b == walkable(width as nat, height as nat),
{
    width > 0 || height <= 1
}

/// `image::guess_format` and, with the format that it found,
/// `image::load_from_memory_with_format`: the image that the bytes hold, or
/// the error of the first of the two that failed. The format is found from
/// the first bytes alone, and the decoder is the one that the `image` crate
/// has for it.
#[verifier::external_body]
pub(crate) fn decode_image(data: &[u8]) -> (res: Result<image::DynamicImage, image::ImageError>)
    ensures
        match res {
            Ok(img) => image_in(data@) == Some(img),
            Err(_) => image_in(data@) is None,
        },
{
    match image::guess_format(data) {
        Ok(format) => image::load_from_memory_with_format(data, format),
        Err(error) => Err(error),
    }
}

/// `image::DynamicImage::width`: the number of pixel columns.
#[verifier::external_body]
pub(crate) fn image_width(img: &image::DynamicImage) -> (w: u32)
    ensures
        w == width_of(*img),
{
    img.width()
}

/// `image::DynamicImage::height`: the number of pixel rows.
#[verifier::external_body]
pub(crate) fn image_height(img: &image::DynamicImage) -> (h: u32)
    ensures
        h == height_of(*img),
{
    img.height()
}

/// `image::DynamicImage::as_bytes`: the number of bytes of the samples that
/// the image holds.
#[verifier::external_body]
pub(crate) fn stored_bytes(img: &image::DynamicImage) -> (n: usize)
    ensures
        n == stored_bytes_of(*img),
{
    img.as_bytes().len()
}

/// `image::DynamicImage::color`: the pixel layout, under this library's names.
#[verifier::external_body]
pub(crate) fn pixel_layout(img: &image::DynamicImage) -> (layout: PixelLayout)
    ensures
        layout == layout_of(*img),
{
    match img.color() {
        image::ColorType::L8 => PixelLayout::Luma8,
        image::ColorType::La8 => PixelLayout::LumaAlpha8,
        image::ColorType::Rgb8 => PixelLayout::Rgb8,
        image::ColorType::Rgba8 => PixelLayout::Rgba8,
        image::ColorType::L16 => PixelLayout::Luma16,
        image::ColorType::La16 => PixelLayout::LumaAlpha16,
        image::ColorType::Rgb16 => PixelLayout::Rgb16,
        image::ColorType::Rgba16 => PixelLayout::Rgba16,
        image::ColorType::Rgb32F => PixelLayout::Rgb32F,
        image::ColorType::Rgba32F => PixelLayout::Rgba32F,
        _ => PixelLayout::Other,
    }
}

/// `image::DynamicImage::resize_exact`: a resampled copy of exactly the given
/// size and of the same layout; where the size is the one that the image
/// has, a copy of its pixels. It allocates one buffer of the old width by
/// the new height and one of the new size, of at most 16 bytes per pixel,
/// and panics where one of them is more than a vector can hold.
#[verifier::external_body]
pub(crate) fn resize_exact(
    img: &image::DynamicImage,
    width: u32,
    height: u32,
    filter: ResizeFilter,
) -> (out: image::DynamicImage)
    requires
        buffer_fits(width_of(*img), height as nat, 16),
        buffer_fits(width as nat, height as nat, 16),
    ensures
        width_of(out) == width,
        height_of(out) == height,
        layout_of(out) == layout_of(*img),
        resampled(out, *img, width as nat, height as nat, filter),
        width_of(*img) == width && height_of(*img) == height ==> samples_of(out) == samples_of(*img),
{
    let filter = match filter {
        ResizeFilter::Nearest => image::imageops::FilterType::Nearest,
        ResizeFilter::Triangle => image::imageops::FilterType::Triangle,
        ResizeFilter::CatmullRom => image::imageops::FilterType::CatmullRom,
        ResizeFilter::Gaussian => image::imageops::FilterType::Gaussian,
        ResizeFilter::Lanczos3 => image::imageops::FilterType::Lanczos3,
    };
    img.resize_exact(width, height, filter)
}

/// `image::DynamicImage::grayscale`: a copy of the same size in which the
/// colour channels of an integer layout are one luminance channel, the gray
/// level of the colour, beside the opacity where there is one. It goes
/// through the pixels, and panics on an image without columns that has more
/// than one row.
#[verifier::external_body]
pub(crate) fn grayscale(img: &image::DynamicImage) -> (out: image::DynamicImage)
    requires
        walkable(width_of(*img), height_of(*img)),
    ensures
        width_of(out) == width_of(*img),
        height_of(out) == height_of(*img),
        layout_of(out) == layout_of(*img).grayscale(),
        layout_of(*img).integer_samples() ==> samples_of(out).len() * layout_of(*img).channels()
            == samples_of(*img).len() * layout_of(out).channels(),
        layout_of(*img).integer_samples() ==> forall|i: int|
            0 <= i < samples_of(out).len() ==> #[trigger] samples_of(out)[i] == gray_sample(
                layout_of(*img),
                samples_of(*img),
                i,
            ),
{
    img.grayscale()
}

/// `image::DynamicImage::brighten`: a copy in which `value` is added to every
/// colour sample, the sum kept within the range of the layout, and every
/// opacity is kept. The copy holds the samples of its pixels and no more. It
/// panics on samples that are no integers, and on an image without columns
/// that has more than one row.
#[verifier::external_body]
pub(crate) fn brighten(img: &image::DynamicImage, value: i32) -> (out: image::DynamicImage)
    requires
        layout_of(*img).integer_samples(),
        walkable(width_of(*img), height_of(*img)),
        -65536 <= value <= 65536,
    ensures
        same_shape(out, *img),
        is_compact(out),
        samples_of(out).len() == samples_of(*img).len(),
        forall|i: int|
            0 <= i < samples_of(*img).len() ==> #[trigger] samples_of(out)[i] == brightened_sample(
                layout_of(*img),
                i,
                samples_of(*img)[i],
                value as int,
            ),
{
    img.brighten(value)
}

/// `image::DynamicImage::adjust_contrast`: a copy of the same size and layout
/// with the contrast changed by `amount`. The copy holds the samples of its
/// pixels and no more. Where the amount is 0 or more, the distance of a
/// sample from the middle of the range grows or stays, so that a sample of 0
/// and a sample at the maximum stay as they are. It panics on an image
/// without columns that has more than one row.
#[verifier::external_body]
pub(crate) fn adjust_contrast(img: &image::DynamicImage, amount: i16) -> (out: image::DynamicImage)
    requires
        walkable(width_of(*img), height_of(*img)),
    ensures
        same_shape(out, *img),
        is_compact(out),
        contrast_raised(out, *img, amount as int),
        amount >= 0 && layout_of(*img).integer_samples() ==> keeps_extremes(out, *img),
{
    img.adjust_contrast(amount.into())
}

/// `image::DynamicImage::to_rgb8`: the pixels as 8-bit RGB samples, handed
/// out pixel by pixel. Of an 8-bit RGB image they are its own samples; of an
/// 8-bit gray image, its levels, each three times.
#[verifier::external_body]
pub(crate) fn rgb_samples(img: &image::DynamicImage) -> (samples: Vec<u8>)
    requires
        buffer_fits(width_of(*img), height_of(*img), 3),
    ensures
        samples@ == rgb_samples_of(*img),
        samples@.len() == 3 * width_of(*img) * height_of(*img),
        layout_of(*img) == PixelLayout::Rgb8 ==> samples_of(*img) == as_ints(samples@),
        layout_of(*img) == PixelLayout::Luma8 ==> repeats_levels(samples@, samples_of(*img)),
{
    img.to_rgb8().pixels().flat_map(|p| p.0).collect()
}

/// `image::ImageBuffer::from_raw`: an 8-bit RGB image over the given samples,
/// where they are enough for the given size.
#[verifier::external_body]
pub(crate) fn image_from_rgb(width: u32, height: u32, samples: Vec<u8>) -> (res: Option<
    image::DynamicImage,
>)
    ensures
        res is Some <==> samples@.len() >= 3 * width * height,
        res matches Some(img) ==> {
            &&& width_of(img) == width
            &&& height_of(img) == height
            &&& layout_of(img) == PixelLayout::Rgb8
            &&& rgb_samples_of(img) == samples@.subrange(0, 3 * width * height)
            &&& samples_of(img) == as_ints(samples@.subrange(0, 3 * width * height))
            &&& stored_bytes_of(img) == samples@.len()
        },
{
    image::RgbImage::from_raw(width, height, samples).map(image::DynamicImage::ImageRgb8)
}

/// `image::codecs::jpeg::JpegEncoder` through
/// `image::DynamicImage::write_with_encoder`: the image as a baseline JPEG
/// stream. The encoder refuses exactly the sizes that a JPEG frame cannot
/// have; a stream that it wrote begins with the start-of-image marker and
/// the marker of the first segment. It panics on an image that holds more
/// samples than its pixels have.
#[verifier::external_body]
pub(crate) fn encode_jpeg(img: &image::DynamicImage) -> (res: Result<Vec<u8>, image::ImageError>)
    requires
        is_compact(*img),
    ensures
        res is Ok <==> jpeg_size(width_of(*img), height_of(*img)),
        res matches Ok(bytes) ==> bytes@ == jpeg_stream_of(*img) && starts_as_jpeg(bytes@),
{
    let mut bytes = Vec::new();
    let written = img.write_with_encoder(image::codecs::jpeg::JpegEncoder::new(&mut bytes));
    written.map(|_| bytes)
}

/// `image::ImageError` as text, through its `Display`.
#[verifier::external_body]
pub(crate) fn image_error_text(error: &image::ImageError) -> (text: String)
    ensures
        image_error_says(*error, text@),
{
    error.to_string()
}

} // verus!
