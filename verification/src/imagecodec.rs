//! Decoding downloaded picture bytes and re-encoding them as JPEG.
//!
//! The decoder sniffs the format from the bytes themselves; the content
//! type of the download is never trusted. A decoded picture is opaque to
//! the verifier, so its contents are named abstractly: [`decoded_image_of`]
//! is the contents decoded from a byte sequence, and [`jpeg_of`] is the
//! JPEG encoding of such contents.

use vstd::prelude::*;

use crate::error::Error;

verus! {

#[verifier::external_type_specification]
#[verifier::external_body]
pub struct ExDynamicImage(image::DynamicImage);

/// The abstract contents of an in-memory picture: dimensions, colour type
/// and samples, as one unspecified byte sequence.
pub uninterp spec fn image_model(img: image::DynamicImage) -> Seq<u8>;

/// The contents decoded from a byte sequence, if the bytes are a
/// recognized raster picture format.
pub uninterp spec fn decoded_image_of(b: Seq<u8>) -> Option<Seq<u8>>;

/// The JPEG encoding of a picture with the given abstract contents.
pub uninterp spec fn jpeg_of(contents: Seq<u8>) -> Seq<u8>;

/// Whether a picture with the given abstract contents can be written as
/// JPEG. The encoder refuses only deterministic conditions of the picture
/// itself (such as a zero or out-of-range dimension), and writing into a
/// byte vector cannot otherwise fail, so this depends on the contents
/// alone.
pub uninterp spec fn jpeg_encodable(contents: Seq<u8>) -> bool;

/// Relies on `image::load_from_memory`: the format is guessed from the
/// bytes, and whether and to what the bytes decode depends on the bytes
/// alone. The error string carries the decoder's own description.
#[verifier::external_body]
fn decode_image(b: &[u8]) -> (r: Result<image::DynamicImage, String>)
    ensures
        r is Ok <==> decoded_image_of(b@) is Some,
        r matches Ok(img) ==> image_model(img) == decoded_image_of(b@)->Some_0,
{
    match image::load_from_memory(b) {
        Ok(img) => Ok(img),
        Err(e) => Err(format!("{}", e)),
    }
}

/// Relies on `image::DynamicImage::write_to` with the JPEG format: the
/// bytes written depend on the picture's contents alone. The error string
/// carries the encoder's own description.
#[verifier::external_body]
fn encode_jpeg(img: &image::DynamicImage) -> (r: Result<Vec<u8>, String>)
    ensures
        r is Ok <==> jpeg_encodable(image_model(*img)),
        r matches Ok(out) ==> out@ == jpeg_of(image_model(*img)),
{
    let mut buf: Vec<u8> = Vec::new();
    match img.write_to(std::io::Cursor::new(&mut buf), image::ImageFormat::Jpeg) {
        Ok(()) => Ok(buf),
        Err(e) => Err(format!("{}", e)),
    }
}

/// Decodes downloaded bytes and re-encodes the picture as JPEG.
///
/// Succeeds exactly when the bytes decode as a recognized raster picture
/// whose contents the JPEG encoder accepts (it refuses only a picture
/// with a zero or out-of-range dimension); the result is then exactly the
/// JPEG encoding of the decoded contents. Anything else is a decode
/// failure carrying the given offset.
pub fn reencode_jpeg(offset: i64, body: &[u8]) -> (r: Result<Vec<u8>, Error>)
    ensures
        r is Ok <==> (decoded_image_of(body@) matches Some(contents) && jpeg_encodable(contents)),
        r matches Ok(out) ==> decoded_image_of(body@) matches Some(contents) && out@ == jpeg_of(
            contents,
        ),
        r matches Err(e) ==> e matches Error::Decode { offset: o, .. } && o == offset,
{
    let img = match decode_image(body) {
        Ok(img) => img,
        Err(detail) => { return Err(Error::Decode { offset, detail }); },
    };
    match encode_jpeg(&img) {
        Ok(out) => Ok(out),
        Err(detail) => Err(Error::Decode { offset, detail }),
    }
}

} // verus!
