//! Turning an encoded image into pixels ready for upload to a texture.
use vstd::prelude::*;

verus! {

#[verifier::external_type_specification]
#[verifier::external_body]
pub struct ExImageError(image::ImageError);

/// What decoding `bytes` gives: width, height and RGBA8 pixels, or nothing
/// when the bytes are no image that the decoder reads.
pub uninterp spec fn decoded_rgba8(bytes: Seq<u8>) -> Option<(u32, u32, Seq<u8>)>;

/// Relies on image::guess_format, which picks a built-in format by the bytes'
/// signature, and image::load_from_memory_with_format, which decodes them in
/// that format; neither consults the hooks that a process may register, so the
/// result depends on the bytes alone. DynamicImage::into_rgba8 only converts
/// what was decoded.
#[verifier::external_body]
fn decode_rgba8(bytes: &[u8]) -> (r: Result<(u32, u32, Vec<u8>), image::ImageError>)
    ensures
        r is Ok <==> decoded_rgba8(bytes@) is Some,
        r matches Ok(t) ==> decoded_rgba8(bytes@) == Some((t.0, t.1, t.2@)),
{
    let format = image::guess_format(bytes)?;
    let rgba = image::load_from_memory_with_format(bytes, format)?.into_rgba8();
    Ok((rgba.width(), rgba.height(), rgba.into_raw()))
}

/// Why an asset was not loaded.
#[derive(Clone, Copy, Debug, PartialEq, Eq, Structural)]
pub enum AssetError {
    /// The encoded image holds no bytes.
    EmptyImage,
    /// The bytes could not be decoded as an image.
    DecodeError,
    /// The pixels do not make a non-empty RGBA8 image of the stated size.
    InvalidImageData,
}

/// Whether `len` bytes make an RGBA8 image of `width` by `height` pixels that
/// a texture can hold: neither side is zero, there are four bytes per pixel,
/// and a row's byte count fits a `u32`.
pub open spec fn valid_rgba8(len: int, width: u32, height: u32) -> bool {
    &&& width > 0
    &&& height > 0
    &&& len == 4 * width * height
    &&& 4 * width <= u32::MAX
}

/// Pixels laid out for one copy into a two-dimensional texture.
#[derive(Debug)]
pub struct TextureUpload {
    pub width: u32,
    pub height: u32,
    pub bytes_per_row: u32,
    pub rows_per_image: u32,
    pub pixels: Vec<u8>,
}

impl TextureUpload {
    /// Whether this upload carries `pixels` as an image of `width` by `height`.
    pub open spec fn holds(&self, pixels: Seq<u8>, width: u32, height: u32) -> bool {
        &&& self.width == width
        &&& self.height == height
        &&& self.bytes_per_row == 4 * width
        &&& self.rows_per_image == height
        &&& self.pixels@ == pixels
    }

    /// Lays out `pixels` as an RGBA8 image of `width` by `height`; fails with
    /// `InvalidImageData` exactly when they do not make one.
    pub fn new(pixels: Vec<u8>, width: u32, height: u32) -> (r: Result<TextureUpload, AssetError>)
        ensures
            r is Ok <==> valid_rgba8(pixels@.len() as int, width, height),
            r matches Ok(t) ==> t.holds(pixels@, width, height),
            r matches Err(e) ==> e == AssetError::InvalidImageData,
    {
        proof {
            assert((width as int) * (height as int) <= 0xffff_ffffint * 0xffff_ffffint) by (nonlinear_arith)
                requires
                    width <= 0xffff_ffffint,
                    height <= 0xffff_ffffint,
            ;
            assert(4 * width * height == (width * height) * 4) by (nonlinear_arith);
        }
        let area: u128 = (width as u128) * (height as u128);
        if width == 0 || height == 0 || width > u32::MAX / 4 || area * 4 != pixels.len() as u128 {
            return Err(AssetError::InvalidImageData);
        }
        Ok(TextureUpload { width, height, bytes_per_row: 4 * width, rows_per_image: height, pixels })
    }
}

/// The upload for a decoding result: `DecodeError` when decoding failed, else
/// as `TextureUpload::new` lays out the decoded pixels.
pub fn texture_from_decoded(decoded: Option<(u32, u32, Vec<u8>)>) -> (r: Result<TextureUpload, AssetError>)
    ensures
        decoded is None ==> r == Err::<TextureUpload, AssetError>(AssetError::DecodeError),
        decoded matches Some(d) ==> {
            &&& (r is Ok <==> valid_rgba8(d.2@.len() as int, d.0, d.1))
            &&& (r matches Ok(t) ==> t.holds(d.2@, d.0, d.1))
            &&& (r matches Err(e) ==> e == AssetError::InvalidImageData)
        },
{
    match decoded {
        None => Err(AssetError::DecodeError),
        Some((width, height, pixels)) => TextureUpload::new(pixels, width, height),
    }
}

/// Decodes an encoded image into an upload: `EmptyImage` for no bytes,
/// `DecodeError` when the decoder rejects them, `InvalidImageData` when the
/// decoded pixels do not make an image a texture can hold.
pub fn load_texture(bytes: &[u8]) -> (r: Result<TextureUpload, AssetError>)
    ensures
        bytes@.len() == 0 ==> r == Err::<TextureUpload, AssetError>(AssetError::EmptyImage),
        bytes@.len() > 0 ==> match decoded_rgba8(bytes@) {
            None => r == Err::<TextureUpload, AssetError>(AssetError::DecodeError),
            Some(d) => {
                &&& (r is Ok <==> valid_rgba8(d.2.len() as int, d.0, d.1))
                &&& (r matches Ok(t) ==> t.holds(d.2, d.0, d.1))
                &&& (r matches Err(e) ==> e == AssetError::InvalidImageData)
            },
        },
{
    if bytes.len() == 0 {
        return Err(AssetError::EmptyImage);
    }
    let decoded = match decode_rgba8(bytes) {
        Ok(d) => Some(d),
        Err(_) => None,
    };
    texture_from_decoded(decoded)
}

} // verus!
