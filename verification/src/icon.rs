use vstd::prelude::*;

verus! {

/// The pixels (RGBA, 8 bits per channel, row by row), width and height that
/// the `image` crate decodes from `bytes`, the format guessed from their magic
/// bytes, or `None` where the format is not recognised or the bytes do not
/// decode.
pub uninterp spec fn decoded_rgba8(bytes: Seq<u8>) -> Option<(Seq<u8>, u32, u32)>;

/// Guesses the format with `image::guess_format`, decodes with
/// `image::load_from_memory_with_format`, converts the image with
/// `DynamicImage::into_rgba8` and hands out `ImageBuffer::dimensions` and
/// `ImageBuffer::into_raw`.
///
/// `guess_format` reads only the crate's built-in table of magic bytes, and
/// with the format given the crate goes straight to its built-in decoder; no
/// registered hook is consulted, so the result is a function of the bytes,
/// named `decoded_rgba8`, and what the decoders compute is not restated. The
/// pixel buffer holds exactly four bytes per pixel: a decoder's buffer is
/// width × height × bytes-per-pixel, and a conversion to RGBA allocates a new
/// buffer of width × height × 4.
#[verifier::external_body]
fn decode_rgba8(bytes: &[u8]) -> (r: Option<(Vec<u8>, u32, u32)>)
    ensures
        match r {
            Some((pixels, width, height)) => {
                &&& decoded_rgba8(bytes@) == Some((pixels@, width, height))
                &&& pixels@.len() == 4 * width * height
            },
            None => decoded_rgba8(bytes@) is None,
        },
{
    let format = match image::guess_format(bytes) {
        Ok(format) => format,
        Err(_) => return None,
    };
    match image::load_from_memory_with_format(bytes, format) {
        Ok(decoded) => {
            let rgba = decoded.into_rgba8();
            let (width, height) = rgba.dimensions();
            Some((rgba.into_raw(), width, height))
        },
        Err(_) => None,
    }
}

/// An icon as RGBA pixels, four bytes per pixel, row by row.
#[derive(Debug)]
pub struct IconImage {
    pub rgba: Vec<u8>,
    pub width: u32,
    pub height: u32,
}

/// Whether `bytes` hold an image the icon can be made from.
pub open spec fn is_icon_image(bytes: Seq<u8>) -> bool {
    decoded_rgba8(bytes) is Some
}

/// The icon in the encoded image `bytes`, which must decode.
pub fn load_icon(bytes: &[u8]) -> (icon: IconImage)
    requires
        is_icon_image(bytes@),
    ensures
        decoded_rgba8(bytes@) == Some((icon.rgba@, icon.width, icon.height)),
        icon.rgba@.len() == 4 * icon.width * icon.height,
{
    match try_load_icon(bytes) {
        Some(icon) => icon,
        None => vstd::pervasive::unreached(),
    }
}

/// The icon in the encoded image `bytes`, or `None` where they do not decode;
/// the bytes are decoded once.
pub fn try_load_icon(bytes: &[u8]) -> (icon: Option<IconImage>)
    ensures
        match icon {
            Some(i) => {
                &&& decoded_rgba8(bytes@) == Some((i.rgba@, i.width, i.height))
                &&& i.rgba@.len() == 4 * i.width * i.height
            },
            None => !is_icon_image(bytes@),
        },
{
    match decode_rgba8(bytes) {
        Some((rgba, width, height)) => Some(IconImage { rgba, width, height }),
        None => None,
    }
}

} // verus!
