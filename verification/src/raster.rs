//! Raster images, held and coded by the `image` crate.
//!
//! Nothing in this file is proved: each item states what the crate's function
//! is taken to do. An image that the crate decoded or scaled is carried
//! through as it is; what is said of it is said of its layout and its
//! samples.

use vstd::prelude::*;
use crate::text::lowercase;

verus! {

/// An image of any pixel layout, as the `image` crate decodes and scales it.
#[verifier::external_type_specification]
#[verifier::external_body]
pub struct ExDynamicImage(image::DynamicImage);

/// A file format that the `image` crate knows.
#[verifier::external_type_specification]
#[verifier::external_body]
pub struct ExImageFormat(image::ImageFormat);

/// The `image` crate's error.
#[verifier::external_type_specification]
#[verifier::external_body]
pub struct ExImageError(image::ImageError);

/// A raster of 8-bit RGBA pixels, held in an `image::RgbaImage`.
#[verifier::external_body]
pub struct Canvas {
    inner: image::RgbaImage,
}

/// The number of pixels in a row of the canvas.
pub uninterp spec fn canvas_width(c: Canvas) -> nat;

/// The number of rows of the canvas.
pub uninterp spec fn canvas_height(c: Canvas) -> nat;

/// The pixels of the canvas, row after row, each as red, green, blue, alpha.
pub uninterp spec fn canvas_pixels(c: Canvas) -> Seq<(u8, u8, u8, u8)>;

/// What encoding an 8-bit RGBA raster as PNG with the `image` crate comes
/// to: the bytes of the file, or the words of the encoder's error.
pub uninterp spec fn png_encoding(width: nat, height: nat, pixels: Seq<(u8, u8, u8, u8)>) -> Result<
    Seq<u8>,
    Seq<char>,
>;

/// The view of an encoder's result.
pub open spec fn encoded_view(r: Result<Vec<u8>, String>) -> Result<Seq<u8>, Seq<char>> {
    match r {
        Ok(bytes) => Ok(bytes@),
        Err(text) => Err(text@),
    }
}

/// `image::RgbaImage::new`: a raster of the given size with every channel of
/// every pixel zero. It panics where the buffer would be longer than a
/// vector can be.
#[verifier::external_body]
pub(crate) fn blank_canvas(width: u32, height: u32) -> (c: Canvas)
    requires
        4 * width * height <= isize::MAX,
    ensures
        canvas_width(c) == width,
        canvas_height(c) == height,
        canvas_pixels(c) == Seq::new((width * height) as nat, |i: int| (0u8, 0u8, 0u8, 0u8)),
{
    Canvas { inner: image::RgbaImage::new(width, height) }
}

/// `image::RgbaImage::put_pixel`: replaces the pixel in column `x` of row `y`
/// and no other. It panics outside the raster.
#[verifier::external_body]
pub(crate) fn put_pixel(c: &mut Canvas, x: u32, y: u32, color: (u8, u8, u8, u8))
    requires
        x < canvas_width(*old(c)),
        y < canvas_height(*old(c)),
    ensures
        canvas_width(*final(c)) == canvas_width(*old(c)),
        canvas_height(*final(c)) == canvas_height(*old(c)),
        canvas_pixels(*final(c)) == canvas_pixels(*old(c)).update(
            y * canvas_width(*old(c)) + x,
            color,
        ),
{
    c.inner.put_pixel(x, y, image::Rgba([color.0, color.1, color.2, color.3]));
}

/// `image::RgbaImage::write_to` with the PNG format, into memory: the bytes
/// of the PNG file of the raster, or the error as it displays. Both go by
/// the size and the pixels of the raster alone.
#[verifier::external_body]
pub(crate) fn canvas_png(c: &Canvas) -> (r: Result<Vec<u8>, String>)
    ensures
        encoded_view(r) == png_encoding(canvas_width(*c), canvas_height(*c), canvas_pixels(*c)),
{
    let mut buffer = Vec::new();
    match c.inner.write_to(&mut std::io::Cursor::new(&mut buffer), image::ImageFormat::Png) {
        Ok(()) => Ok(buffer),
        Err(error) => Err(error.to_string()),
    }
}

/// The extensions, in lower case, for which the `image` crate names a
/// format.
pub open spec fn names_image_format(e: Seq<char>) -> bool {
    ||| e == "avif"@
    ||| e == "jpg"@
    ||| e == "jpeg"@
    ||| e == "jfif"@
    ||| e == "png"@
    ||| e == "apng"@
    ||| e == "gif"@
    ||| e == "webp"@
    ||| e == "tif"@
    ||| e == "tiff"@
    ||| e == "tga"@
    ||| e == "dds"@
    ||| e == "bmp"@
    ||| e == "ico"@
    ||| e == "hdr"@
    ||| e == "exr"@
    ||| e == "pbm"@
    ||| e == "pam"@
    ||| e == "ppm"@
    ||| e == "pgm"@
    ||| e == "pnm"@
    ||| e == "ff"@
    ||| e == "qoi"@
}

/// The size and make of an image: its width, its height, the channels of
/// a pixel, and the bytes of a channel.
pub uninterp spec fn image_layout(image: image::DynamicImage) -> (nat, nat, nat, nat);

/// The samples of an image as bytes, pixel after pixel, row after row.
pub uninterp spec fn image_samples(image: image::DynamicImage) -> Seq<u8>;

/// The format that the `image` crate reads a file of an extension as.
pub uninterp spec fn image_format_for(extension: Seq<char>) -> Option<image::ImageFormat>;

/// The layout and the samples of the image that the `image` crate decodes
/// from bytes in a format, where it decodes one.
pub uninterp spec fn decoded_image(bytes: Seq<u8>, format: image::ImageFormat) -> Option<
    ((nat, nat, nat, nat), Seq<u8>),
>;

/// The layout and the samples of an image once the `image` crate has
/// scaled it to fit within `width` by `height`.
pub uninterp spec fn scaled_image(
    layout: (nat, nat, nat, nat),
    samples: Seq<u8>,
    width: nat,
    height: nat,
) -> ((nat, nat, nat, nat), Seq<u8>);

/// The PNG file that the `image` crate writes for an image, where it
/// writes one.
pub uninterp spec fn png_of_image(layout: (nat, nat, nat, nat), samples: Seq<u8>) -> Option<
    Seq<u8>,
>;

/// `image::ImageFormat::from_extension`: the format that the crate reads a
/// file of this extension as, which goes by the extension alone. It
/// lower-cases the ASCII letters of the extension and names a format for
/// the ones listed above, for no other.
#[verifier::external_body]
pub(crate) fn format_for_extension(extension: &str) -> (r: Option<image::ImageFormat>)
    ensures
        r == image_format_for(extension@),
        r is Some <==> names_image_format(lowercase(extension@)),
{
    image::ImageFormat::from_extension(extension)
}

/// `image::load_from_memory_with_format`: the image that the bytes hold in
/// the given format, or the reason why they hold none. Whether there is an
/// image, and which, goes by the bytes and the format alone.
#[verifier::external_body]
pub(crate) fn decode_image(bytes: &[u8], format: image::ImageFormat) -> (r: Result<
    image::DynamicImage,
    image::ImageError,
>)
    ensures
        match r {
            Ok(image) => decoded_image(bytes@, format) == Some(
                (image_layout(image), image_samples(image)),
            ),
            Err(_) => decoded_image(bytes@, format) is None,
        },
{
    image::load_from_memory_with_format(bytes, format)
}

/// `image::DynamicImage::thumbnail`: the image scaled, with its aspect ratio
/// kept, to fit within `width` by `height`. The result goes by the layout
/// and the samples of the image and by the two bounds alone. It allocates
/// a raster of at most that size, of at most 16 bytes a pixel, and panics
/// where that is longer than a vector can be.
#[verifier::external_body]
pub(crate) fn scale_to_fit(image: &image::DynamicImage, width: u32, height: u32) -> (r:
    image::DynamicImage)
    requires
        1 <= width,
        1 <= height,
        16 * width * height <= isize::MAX,
    ensures
        (image_layout(r), image_samples(r)) == scaled_image(
            image_layout(*image),
            image_samples(*image),
            width as nat,
            height as nat,
        ),
{
    image.thumbnail(width, height)
}

/// `image::DynamicImage::write_to` with the PNG format, into memory. The
/// encoder is handed the samples, the size and the make of the image and
/// nothing else: whether it writes a file, and which, goes by them alone.
#[verifier::external_body]
pub(crate) fn image_png(image: &image::DynamicImage) -> (r: Result<Vec<u8>, image::ImageError>)
    ensures
        match r {
            Ok(bytes) => png_of_image(image_layout(*image), image_samples(*image)) == Some(
                bytes@,
            ),
            Err(_) => png_of_image(image_layout(*image), image_samples(*image)) is None,
        },
{
    let mut buffer = Vec::new();
    image.write_to(&mut std::io::Cursor::new(&mut buffer), image::ImageFormat::Png)?;
    Ok(buffer)
}

} // verus!
