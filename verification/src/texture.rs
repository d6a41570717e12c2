//! The material texture: decoding encoded image bytes into the pixel data
//! and upload geometry a GPU texture needs.
//!
//! Decoding itself is done by an image codec; what it yields for given
//! bytes is named rather than restated, and everything around the call —
//! when which error is reported, and the exact geometry of the upload — is
//! verified. The GPU objects (image, view, sampler) are the host shell's.

use vstd::prelude::*;

verus! {

/// What an encoded image decodes to — its pixel width and height and its
/// tightly packed 8-bit RGBA bytes — or nothing when the encoding is
/// malformed. The result is a function of the encoded bytes alone.
pub uninterp spec fn spec_decoded_rgba(bytes: Seq<u8>) -> Option<(u32, u32, Seq<u8>)>;

/// A decoded image: its pixel size and its tightly packed 8-bit RGBA rows.
#[derive(Debug)]
pub struct DecodedImage {
    pub width: u32,
    pub height: u32,
    pub pixels: Vec<u8>,
}

impl DecodedImage {
    /// Four bytes per pixel, nothing between rows.
    pub open spec fn wf(&self) -> bool {
        self.pixels@.len() == 4 * self.width * self.height
    }
}

/// Why building the material texture failed.
#[derive(Clone, Copy, Debug, PartialEq, Eq, Structural)]
pub enum DecodeError {
    /// The encoded bytes are not a well-formed image.
    MalformedImage,
    /// The decoded image is too wide for a row to be measured in bytes.
    OversizedImage,
}

/// Relies on image::load_from_memory for the decode, and on
/// DynamicImage::to_rgba8 with ImageBuffer::into_raw for the tightly
/// packed buffer of exactly four bytes per pixel.
#[verifier::external_body]
fn decode_rgba(bytes: &[u8]) -> (r: Option<DecodedImage>)
    ensures
        (match r {
            Some(img) => spec_decoded_rgba(bytes@) == Some((img.width, img.height, img.pixels@))
                && img.pixels@.len() == 4 * img.width * img.height,
            None => spec_decoded_rgba(bytes@) is None,
        }),
{
    let img = image::load_from_memory(bytes).ok()?;
    let rgba = img.to_rgba8();
    let (width, height) = rgba.dimensions();
    Some(DecodedImage { width, height, pixels: rgba.into_raw() })
}

/// The geometry of the one-time texture upload: one mip level, one sample,
/// rows of exactly four bytes per pixel.
#[derive(Clone, Copy, Debug, PartialEq, Eq, Structural)]
pub struct TextureUploadDesc {
    pub width: u32,
    pub height: u32,
    pub bytes_per_row: u32,
    pub rows_per_image: u32,
    pub mip_level_count: u32,
    pub sample_count: u32,
}

/// The decoded default material together with its upload geometry.
#[derive(Debug)]
pub struct MaterialTexture {
    pub image: DecodedImage,
    pub upload: TextureUploadDesc,
}

impl MaterialTexture {
    /// The pixel buffer is packed and the upload geometry describes it
    /// exactly.
    pub open spec fn wf(&self) -> bool {
        &&& self.image.wf()
        &&& self.upload.width == self.image.width
        &&& self.upload.height == self.image.height
        &&& self.upload.bytes_per_row == 4 * self.image.width
        &&& self.upload.rows_per_image == self.image.height
        &&& self.upload.mip_level_count == 1
        &&& self.upload.sample_count == 1
    }

    /// Decodes an encoded image into the material texture the renderer
    /// samples. Malformed bytes are reported as such; an image whose row
    /// size cannot be counted in bytes — wider than a quarter of the byte
    /// range — is refused rather than miscounted.
    pub fn from_bytes(bytes: &[u8]) -> (r: Result<MaterialTexture, DecodeError>)
        ensures
            (match r {
                Ok(m) => {
                    &&& m.wf()
                    &&& spec_decoded_rgba(bytes@) == Some(
                        (m.image.width, m.image.height, m.image.pixels@),
                    )
                },
                Err(e) => {
                    &&& e is MalformedImage <==> spec_decoded_rgba(bytes@) is None
                    &&& e is OversizedImage <==> (spec_decoded_rgba(bytes@) matches Some(t) && 4
                        * t.0 > u32::MAX)
                },
            }),
    {
        let img = match decode_rgba(bytes) {
            Some(img) => img,
            None => {
                return Err(DecodeError::MalformedImage);
            },
        };
        if img.width > u32::MAX / 4 {
            return Err(DecodeError::OversizedImage);
        }
        let upload = TextureUploadDesc {
            width: img.width,
            height: img.height,
            bytes_per_row: 4 * img.width,
            rows_per_image: img.height,
            mip_level_count: 1,
            sample_count: 1,
        };
        Ok(MaterialTexture { image: img, upload })
    }
}

} // verus!
