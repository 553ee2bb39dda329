use vstd::prelude::*;
use base64::Engine;

verus! {

/// Where an image comes from; only the in-memory form is processed here,
/// the other two are read at the boundary and handed in as bytes.
pub enum ImageInput<'a> {
    Path(&'a str),
    Url(&'a str),
    Buffer(&'a [u8]),
}

/// Why an image could not be turned into a PNG data URL.
#[derive(Clone, Copy, Debug, PartialEq, Eq, Structural)]
pub enum ImageFailure {
    Decode,
    Encode,
}

/// What base64's standard-alphabet encoding returns for the given bytes; a
/// function of the bytes alone.
pub uninterp spec fn base64_of(bytes: Seq<u8>) -> Seq<char>;

/// Relies on base64's `Engine::encode` with the `STANDARD` engine: the
/// padded standard-alphabet encoding, a function of the input bytes alone.
#[verifier::external_body]
fn base64_standard_encode(bytes: &[u8]) -> (r: String)
    ensures
        r@ == base64_of(bytes@),
{
    base64::engine::general_purpose::STANDARD.encode(bytes)
}

#[verifier::external_type_specification]
#[verifier::external_body]
pub struct ExDynamicImage(image::DynamicImage);

#[verifier::external_type_specification]
#[verifier::external_body]
pub struct ExImageError(image::ImageError);

/// Relies on `image::load_from_memory`: decodes an image from bytes,
/// guessing the format from the bytes themselves. Whether the bytes decode
/// is the crate's decision, so nothing is promised of the outcome.
#[verifier::external_body]
fn load_image(bytes: &[u8]) -> Result<image::DynamicImage, image::ImageError> {
    image::load_from_memory(bytes)
}

/// Relies on `image::DynamicImage::write_to` with `ImageFormat::Png`:
/// encodes the image as PNG into an in-memory buffer.
#[verifier::external_body]
fn encode_png(img: &image::DynamicImage) -> Result<Vec<u8>, image::ImageError> {
    let mut buf: Vec<u8> = Vec::new();
    let mut cursor = std::io::Cursor::new(&mut buf);
    match img.write_to(&mut cursor, image::ImageFormat::Png) {
        Ok(()) => Ok(buf),
        Err(e) => Err(e),
    }
}

/// Re-encodes arbitrary image bytes as PNG bytes. Whether the input decodes
/// at all is the image crate's decision, so the contract only fixes which
/// step failed; what is done with bytes that came back is stated exactly in
/// `png_to_data_url`.
pub fn transcode_to_png(bytes: &[u8]) -> (r: Result<Vec<u8>, ImageFailure>) {
    match load_image(bytes) {
        Err(_) => Err(ImageFailure::Decode),
        Ok(img) => match encode_png(&img) {
            Err(_) => Err(ImageFailure::Encode),
            Ok(png) => Ok(png),
        },
    }
}

/// Wraps PNG bytes as a data URL: the base64 of the bytes behind the
/// `data:image/png;base64,` header.
pub fn png_to_data_url(png: &[u8]) -> (r: String)
    ensures
        r@ == "data:image/png;base64,"@ + base64_of(png@),
{
    String::from_str("data:image/png;base64,").concat(base64_standard_encode(png).as_str())
}

/// The compute half of serving an image as a data URL: the bytes — read
/// from a file, a response, or an in-memory buffer at the boundary — are
/// re-encoded as PNG and wrapped as a `data:image/png;base64,` URL.
pub fn buffer_to_data_url(bytes: &[u8]) -> (r: Result<String, ImageFailure>)
    ensures
        r matches Ok(s) ==> exists|png: Seq<u8>|
            s@ == "data:image/png;base64,"@ + base64_of(png),
{
    let png = match transcode_to_png(bytes) {
        Ok(p) => p,
        Err(e) => {
            return Err(e);
        },
    };
    let url = png_to_data_url(png.as_slice());
    proof {
        assert(url@ == "data:image/png;base64,"@ + base64_of(png@));
    }
    Ok(url)
}

} // verus!
