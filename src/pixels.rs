use vstd::prelude::*;
use crate::color::stride;

verus! {

/// `image::ImageError`, why decoding failed, carried through opaquely.
#[verifier::external_type_specification]
#[verifier::external_body]
pub struct ExImageError(image::ImageError);

/// Why a palette could not be produced.
#[derive(Debug)]
pub enum PaletteError {
    /// The bytes are not an image the decoder recognises.
    DecodeError(image::ImageError),
    /// The image has an alpha channel and alpha is not admitted.
    UnsupportedImageKind,
}

/// Whether an image with an alpha channel may proceed.
#[derive(Debug, Clone, Copy, PartialEq, Eq, Structural)]
pub enum AlphaMode {
    /// Images with an alpha channel are refused.
    Strict,
    /// Images with an alpha channel proceed; alpha is ignored.
    Permissive,
}

/// Flat 8-bit samples, three per pixel (red, green, blue), or four with a
/// trailing alpha sample when `has_alpha`.
pub struct PixelBuffer {
    pub samples: Vec<u8>,
    pub has_alpha: bool,
}

impl PixelBuffer {
    /// The samples form whole pixels.
    pub open spec fn wf(&self) -> bool {
        self.samples@.len() % stride(self.has_alpha) == 0
    }
}

/// What the decoder reads from image bytes: whether the image's color type
/// has an alpha channel, and its pixels as RGB samples, row by row.
pub struct DecodedImage {
    pub has_alpha: bool,
    pub rgb: Vec<u8>,
}

/// Whether `image::load_from_memory` accepts the bytes.
pub uninterp spec fn decodes(bytes: Seq<u8>) -> bool;

/// `ColorType::has_alpha` of the image decoded from the bytes.
pub uninterp spec fn alpha_of(bytes: Seq<u8>) -> bool;

/// `DynamicImage::to_rgb8` of the image decoded from the bytes, as raw samples.
pub uninterp spec fn rgb8_of(bytes: Seq<u8>) -> Seq<u8>;

/// Relies on `image::load_from_memory` (guesses the format from the leading
/// bytes, so empty input fails), `ColorType::has_alpha` of the decoded image's
/// `color()`, and `DynamicImage::to_rgb8` (three samples per pixel). Each
/// depends on the bytes alone.
#[verifier::external_body]
fn decode_image(bytes: &[u8]) -> (r: Result<DecodedImage, image::ImageError>)
    ensures
        r is Ok <==> decodes(bytes@),
        bytes@.len() == 0 ==> r is Err,
        r matches Ok(d) ==> d.has_alpha == alpha_of(bytes@) && d.rgb@ == rgb8_of(bytes@),
        r matches Ok(d) ==> d.rgb@.len() % 3 == 0,
{
    match image::load_from_memory(bytes) {
        Ok(img) => Ok(DecodedImage { has_alpha: img.color().has_alpha(), rgb: img.to_rgb8().into_raw() }),
        Err(e) => Err(e),
    }
}

/// The admission policy: an image may proceed unless it has an alpha
/// channel and the mode is `Strict`.
pub open spec fn admitted(has_alpha: bool, mode: AlphaMode) -> bool {
    !(has_alpha && mode == AlphaMode::Strict)
}

/// Applies the admission policy to whether a decoded image has alpha.
pub fn admit_image(has_alpha: bool, mode: AlphaMode) -> (r: Result<(), PaletteError>)
    ensures
        r is Ok <==> admitted(has_alpha, mode),
        r is Err ==> r matches Err(PaletteError::UnsupportedImageKind),
{
    if has_alpha && mode == AlphaMode::Strict {
        Err(PaletteError::UnsupportedImageKind)
    } else {
        Ok(())
    }
}

/// The samples handed to the quantizer for image bytes under `mode`: the
/// decoded image's RGB samples when it decodes and is admitted, else none.
pub open spec fn loaded(bytes: Seq<u8>, mode: AlphaMode) -> Option<Seq<u8>> {
    if decodes(bytes) && admitted(alpha_of(bytes), mode) {
        Some(rgb8_of(bytes))
    } else {
        None
    }
}

/// Decodes image bytes and admits the image under `mode`, giving its pixels
/// as RGB samples; any alpha channel is dropped.
pub fn load_pixels(bytes: &[u8], mode: AlphaMode) -> (r: Result<PixelBuffer, PaletteError>)
    ensures
        r matches Err(PaletteError::DecodeError(_)) <==> !decodes(bytes@),
        r matches Err(PaletteError::UnsupportedImageKind) <==> decodes(bytes@) && alpha_of(bytes@)
            && mode == AlphaMode::Strict,
        r is Ok <==> loaded(bytes@, mode) is Some,
        r matches Ok(buf) ==> Some(buf.samples@) == loaded(bytes@, mode) && !buf.has_alpha && buf.wf(),
{
    let img = match decode_image(bytes) {
        Ok(img) => img,
        Err(e) => {
            return Err(PaletteError::DecodeError(e));
        },
    };
    match admit_image(img.has_alpha, mode) {
        Ok(()) => {},
        Err(e) => {
            return Err(e);
        },
    }
    Ok(PixelBuffer { samples: img.rgb, has_alpha: false })
}

/// An image with an alpha channel is always refused under `Strict`; under
/// `Permissive` it is admitted, and yields exactly what an image without
/// alpha and with the same RGB samples yields under `Strict`.
pub proof fn lemma_permissive_ignores_alpha(with_alpha: Seq<u8>, without: Seq<u8>)
    requires
        decodes(with_alpha),
        alpha_of(with_alpha),
        decodes(without),
        !alpha_of(without),
        rgb8_of(with_alpha) == rgb8_of(without),
    ensures
        loaded(with_alpha, AlphaMode::Strict) is None,
        loaded(with_alpha, AlphaMode::Permissive) == loaded(without, AlphaMode::Strict),
        loaded(with_alpha, AlphaMode::Permissive) is Some,
{
}

} // verus!
