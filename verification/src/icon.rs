//! The icon in the notification area.
use vstd::prelude::*;

verus! {

/// Why the image crate could not decode a picture.
#[verifier::external_type_specification]
#[verifier::external_body]
pub struct ExImageError(image::ImageError);

/// What `image::load_from_memory_with_format` makes of a PNG file: the pixels
/// of the picture as red, green, blue and alpha bytes, its width and its
/// height, or nothing where it fails.
pub uninterp spec fn decoded_png(png: Seq<u8>) -> Option<(Seq<u8>, u32, u32)>;

/// `image::load_from_memory_with_format` decodes a PNG file; what it gives
/// depends on the file alone. The picture is handed out through
/// `DynamicImage::into_rgba8`.
#[verifier::external_body]
fn decode_png(png: &Vec<u8>) -> (decoded: Result<(Vec<u8>, u32, u32), image::ImageError>)
    ensures
        match decoded {
            Ok((rgba, width, height)) => decoded_png(png@) == Some((rgba@, width, height)),
            Err(_) => decoded_png(png@) is None,
        },
{
    let picture = image::load_from_memory_with_format(png, image::ImageFormat::Png)?.into_rgba8();
    let (width, height) = picture.dimensions();
    Ok((picture.into_raw(), width, height))
}

/// The words of an `image::ImageError`. Nothing is claimed of them.
#[verifier::external_body]
fn image_error_text(error: &image::ImageError) -> (text: String) {
    error.to_string()
}

/// A picture: four bytes for every pixel.
#[derive(Debug)]
pub struct IconImage {
    pub rgba: Vec<u8>,
    pub width: u32,
    pub height: u32,
}

/// Why there is no icon.
#[derive(Debug)]
pub enum IconError {
    /// The file could not be decoded.
    Undecodable(String),
    /// The picture does not have four bytes for every pixel.
    WrongSize,
}

/// Whether there are four bytes for every pixel.
pub open spec fn fits(rgba: Seq<u8>, width: u32, height: u32) -> bool {
    rgba.len() == 4 * (width * height)
}

/// Takes the pixels of a picture for an icon.
pub fn icon_of(rgba: Vec<u8>, width: u32, height: u32) -> (icon: Result<IconImage, IconError>)
    ensures
        match icon {
            Ok(icon) => icon.rgba == rgba && icon.width == width && icon.height == height && fits(
                rgba@,
                width,
                height,
            ),
            Err(error) => error is WrongSize && !fits(rgba@, width, height),
        },
{
    proof {
        assert(width * height <= 0xffff_ffff * 0xffff_ffff) by (nonlinear_arith)
            requires
                0 <= width <= 0xffff_ffff,
                0 <= height <= 0xffff_ffff,
        ;
        assert(width * height >= 0) by (nonlinear_arith)
            requires
                0 <= width,
                0 <= height,
        ;
    }
    let pixels: u128 = width as u128 * height as u128;
    if rgba.len() as u128 == 4 * pixels {
        Ok(IconImage { rgba, width, height })
    } else {
        Err(IconError::WrongSize)
    }
}

/// Decodes the icon.
pub fn load_icon(png: &Vec<u8>) -> (icon: Result<IconImage, IconError>)
    ensures
        match decoded_png(png@) {
            None => icon matches Err(error) && error is Undecodable,
            Some((rgba, width, height)) => if fits(rgba, width, height) {
                icon matches Ok(icon) && icon.rgba@ == rgba && icon.width == width && icon.height
                    == height
            } else {
                icon matches Err(error) && error is WrongSize
            },
        },
{
    match decode_png(png) {
        Ok((rgba, width, height)) => icon_of(rgba, width, height),
        Err(error) => Err(IconError::Undecodable(image_error_text(&error))),
    }
}

/// A picture fits where it has four bytes for each pixel of every row, and no
/// picture fits with one byte more or less.
pub proof fn pictures_have_four_bytes_per_pixel(rgba: Seq<u8>, width: u32, height: u32, byte: u8)
    requires
        fits(rgba, width, height),
    ensures
        rgba.len() % 4 == 0,
        rgba.len() / 4 == width * height,
        !fits(rgba.push(byte), width, height),
        width == 0 || height == 0 ==> rgba.len() == 0,
{
    assert(width == 0 || height == 0 ==> width * height == 0) by (nonlinear_arith);
}

} // verus!
