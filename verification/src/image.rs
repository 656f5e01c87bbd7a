//! Decoding an image whose bytes the embedding page supplied, with the format
//! named by its MIME type or, when none is given, taken to be PNG.

use vstd::prelude::*;

use bevy::asset::RenderAssetUsages;
use bevy::image::{CompressedImageFormats, Image, ImageSampler, ImageType, TextureError};

verus! {

#[verifier::external_type_specification]
#[verifier::external_body]
pub struct ExImage(Image);

#[verifier::external_type_specification]
#[verifier::external_body]
pub struct ExTextureError(TextureError);

/// How the format of image bytes is named: by a MIME type or by a file extension.
#[derive(Clone, Debug, PartialEq, Eq)]
pub enum ImageFormatHint {
    MimeType(String),
    Extension(String),
}

impl ImageFormatHint {
    /// Whether the format is named by a MIME type.
    pub open spec fn by_mime_type(&self) -> bool {
        self is MimeType
    }

    /// The MIME type or extension.
    pub open spec fn name(&self) -> Seq<char> {
        match self {
            ImageFormatHint::MimeType(m) => m@,
            ImageFormatHint::Extension(e) => e@,
        }
    }
}

/// The image that Bevy decodes from `bytes` in the format named by the MIME
/// type `format` (when `by_mime_type`) or by the extension `format`, as an sRGB
/// image without compressed formats; `None` when the bytes do not decode.
pub uninterp spec fn decoded_image(bytes: Seq<u8>, by_mime_type: bool, format: Seq<char>) -> Option<Image>;

/// Decodes `bytes` with Bevy's `Image::from_buffer` as an sRGB image, with the
/// default sampler and usages and no compressed formats. The contract claims that
/// the result is a function of the bytes and the format alone: the image named
/// `decoded_image` of them, or an error exactly when that name is `None`. Nothing
/// is said of which error.
#[verifier::external_body]
fn image_from_buffer(bytes: &[u8], hint: &ImageFormatHint) -> (r: Result<Image, TextureError>)
    ensures
        match r {
            Ok(img) => decoded_image(bytes@, hint.by_mime_type(), hint.name()) == Some(img),
            Err(_) => decoded_image(bytes@, hint.by_mime_type(), hint.name()) is None,
        },
{
    let image_type = match hint {
        ImageFormatHint::MimeType(m) => ImageType::MimeType(m.as_str()),
        ImageFormatHint::Extension(e) => ImageType::Extension(e.as_str()),
    };
    Image::from_buffer(
        bytes,
        image_type,
        CompressedImageFormats::NONE,
        true,
        ImageSampler::Default,
        RenderAssetUsages::default(),
    )
}

/// The format of supplied bytes: the MIME type when one is given and not
/// empty, else the extension "png".
pub open spec fn spec_format_hint(mime: Option<Seq<char>>) -> (bool, Seq<char>) {
    match mime {
        Some(m) => if m.len() > 0 { (true, m) } else { (false, "png"@) },
        None => (false, "png"@),
    }
}

/// Names the format of supplied image bytes: by `mime` when it is given and not
/// empty, else as a PNG file.
pub fn image_format_hint(mime: Option<String>) -> (r: ImageFormatHint)
    ensures
        (r.by_mime_type(), r.name()) == spec_format_hint(
            match mime {
                Some(m) => Some(m@),
                None => None,
            },
        ),
{
    match mime {
        Some(m) => {
            if m.as_str().is_empty() {
                ImageFormatHint::Extension("png".to_owned())
            } else {
                ImageFormatHint::MimeType(m)
            }
        },
        None => ImageFormatHint::Extension("png".to_owned()),
    }
}

/// Why supplied image bytes gave no image.
#[derive(Debug)]
pub enum InjectedImageError {
    /// No bytes were supplied.
    Empty,
    /// The bytes are not an image of the named format.
    Undecodable(TextureError),
}

/// Decodes image bytes supplied by the page, in the format named by `mime` or
/// as PNG when no MIME type is given: the result is Bevy's decoding of the bytes
/// in that format. No bytes give `Empty`; bytes that do not decode give
/// `Undecodable` with Bevy's error.
pub fn decode_injected_image(bytes: &[u8], mime: Option<String>) -> (r: Result<Image, InjectedImageError>)
    ensures
        bytes@.len() == 0 ==> r matches Err(InjectedImageError::Empty),
        bytes@.len() > 0 ==> {
            let format = spec_format_hint(
                match mime {
                    Some(m) => Some(m@),
                    None => None,
                },
            );
            &&& match r {
                Ok(img) => decoded_image(bytes@, format.0, format.1) == Some(img),
                Err(_) => decoded_image(bytes@, format.0, format.1) is None,
            }
            &&& r is Err ==> r matches Err(InjectedImageError::Undecodable(_))
        },
{
    if bytes.len() == 0 {
        return Err(InjectedImageError::Empty);
    }
    let hint = image_format_hint(mime);
    match image_from_buffer(bytes, &hint) {
        Ok(image) => Ok(image),
        Err(err) => Err(InjectedImageError::Undecodable(err)),
    }
}


/// A non-empty MIME type names the format as given; a missing or empty one
/// makes the bytes a PNG file.
pub proof fn the_format_is_the_mime_type_or_png(mime: Option<Seq<char>>)
    ensures
        mime is Some && mime->0.len() > 0 ==> spec_format_hint(mime) == (true, mime->0),
        !(mime is Some && mime->0.len() > 0) ==> spec_format_hint(mime) == (false, "png"@),
{
}

} // verus!
