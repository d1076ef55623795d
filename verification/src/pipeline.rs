//! The thumbnail transform: decode, resize, encode.
//!
//! Pixel work is delegated to the image codec crate; each of the three
//! steps stands behind a trusted wrapper whose contract names its
//! result, since the steps are deterministic functions of their
//! arguments. The logic that strings the steps together, and the
//! failure policy that turns any error into an empty result, is
//! verified here.

use image::ImageEncoder;
use vstd::prelude::*;

verus! {

#[verifier::external_type_specification]
#[verifier::external_body]
pub struct ExImageError(image::ImageError);

/// An in-process decoded image: rows of 8-bit RGB samples. It exists
/// only between the decode and encode steps and never crosses the
/// boundary. The pixel container is the codec crate's buffer type,
/// whose declaration Verus refuses over its trait bound, so the
/// raster holds it opaquely; the spec functions below name what it
/// holds.
#[verifier::external_body]
pub struct Raster {
    img: image::ImageBuffer<image::Rgb<u8>, Vec<u8>>,
}

/// What decoding a byte sequence to an 8-bit RGB raster yields:
/// `None` when no format is recognized or the data is corrupt,
/// otherwise the raster's samples, width and height.
pub uninterp spec fn decoded_rgb8(bytes: Seq<u8>) -> Option<(Seq<u8>, u32, u32)>;

/// The samples a raster holds, row by row, three bytes per pixel.
pub uninterp spec fn raster_samples(img: Raster) -> Seq<u8>;

/// A raster's width in pixels.
pub uninterp spec fn raster_width(img: Raster) -> u32;

/// A raster's height in pixels.
pub uninterp spec fn raster_height(img: Raster) -> u32;

/// What area-sampling a raster to the given dimensions yields.
pub uninterp spec fn resized_samples(
    samples: Seq<u8>,
    source_width: u32,
    source_height: u32,
    width: u32,
    height: u32,
) -> Seq<u8>;

/// The baseline JPEG stream that encodes a raster at the codec's
/// default quality.
pub uninterp spec fn jpeg_of(samples: Seq<u8>, width: u32, height: u32) -> Seq<u8>;

/// Relies on image::ImageReader: the format is sniffed from the byte
/// content alone (never from a name), the image decoded, and the
/// result converted to 8-bit RGB, dropping alpha; with the default
/// format table the outcome depends on the bytes alone. An empty
/// input carries no format signature, so it is rejected.
#[verifier::external_body]
fn decode_rgb8(bytes: &[u8]) -> (r: Result<Raster, image::ImageError>)
    ensures
        r is Ok <==> decoded_rgb8(bytes@) is Some,
        r matches Ok(img) ==> {
            let d = decoded_rgb8(bytes@)->0;
            &&& raster_samples(img) == d.0
            &&& raster_width(img) == d.1
            &&& raster_height(img) == d.2
            &&& d.0.len() == 3 * (d.1 as int) * (d.2 as int)
        },
        bytes@.len() == 0 ==> r is Err,
{
    let reader = image::ImageReader::new(std::io::Cursor::new(bytes)).with_guessed_format()?;
    match reader.decode() {
        Ok(decoded) => Ok(Raster { img: decoded.into_rgb8() }),
        Err(e) => Err(e),
    }
}

/// Relies on image::imageops::thumbnail: an area-sampling resize to
/// exactly the requested dimensions that never fails and depends on
/// the source raster and the target dimensions alone. The result is a
/// raster of exactly `width` by `height` pixels.
#[verifier::external_body]
fn resize_raster(img: &Raster, width: u32, height: u32) -> (r: Raster)
    ensures
        raster_width(r) == width,
        raster_height(r) == height,
        raster_samples(r) == resized_samples(
            raster_samples(*img),
            raster_width(*img),
            raster_height(*img),
            width,
            height,
        ),
        raster_samples(r).len() == 3 * (width as int) * (height as int),
{
    Raster { img: image::imageops::thumbnail(&img.img, width, height) }
}

/// Relies on image::codecs::jpeg::JpegEncoder::write_image at the
/// default quality, writing into a growable buffer that cannot fail:
/// the stream depends on the raster and its dimensions alone; the
/// encoder rejects exactly the dimensions JPEG cannot carry (zero, or
/// above 65535); and the stream opens with the two SOI marker bytes
/// and closes with the two EOI marker bytes. The encoder checks its
/// buffer length against the dimensions, so the wrapper demands they
/// agree.
#[verifier::external_body]
fn encode_jpeg(img: &Raster, width: u32, height: u32) -> (r: Result<Vec<u8>, image::ImageError>)
    requires
        width == raster_width(*img),
        height == raster_height(*img),
        raster_samples(*img).len() == 3 * (width as int) * (height as int),
    ensures
        r is Ok <==> (1 <= width <= 65535 && 1 <= height <= 65535),
        r matches Ok(v) ==> {
            &&& v@ == jpeg_of(raster_samples(*img), width, height)
            &&& v@.len() >= 4
            &&& v@[0] == 0xFF
            &&& v@[1] == 0xD8
            &&& v@[v@.len() - 2] == 0xFF
            &&& v@[v@.len() - 1] == 0xD9
        },
{
    let mut out: Vec<u8> = Vec::new();
    let encoder = image::codecs::jpeg::JpegEncoder::new(&mut out);
    match encoder.write_image(img.img.as_raw(), width, height, image::ExtendedColorType::Rgb8) {
        Ok(()) => Ok(out),
        Err(e) => Err(e),
    }
}

/// When the transform succeeds: the source decodes, and the requested
/// dimensions are ones JPEG can carry.
pub open spec fn thumbnail_ok_spec(bytes: Seq<u8>, width: u32, height: u32) -> bool {
    &&& decoded_rgb8(bytes) is Some
    &&& 1 <= width <= 65535
    &&& 1 <= height <= 65535
}

/// The bytes a successful transform yields: the source decoded,
/// resized to the requested dimensions, and re-encoded as JPEG.
pub open spec fn thumbnail_bytes_spec(bytes: Seq<u8>, width: u32, height: u32) -> Seq<u8>
    recommends
        thumbnail_ok_spec(bytes, width, height),
{
    let d = decoded_rgb8(bytes)->0;
    jpeg_of(resized_samples(d.0, d.1, d.2, width, height), width, height)
}

/// What the transform returns for every input: the encoded thumbnail
/// on success, and an empty sequence on any failure.
pub open spec fn thumbnail_result_spec(bytes: Seq<u8>, width: u32, height: u32) -> Seq<u8> {
    if thumbnail_ok_spec(bytes, width, height) {
        thumbnail_bytes_spec(bytes, width, height)
    } else {
        Seq::<u8>::empty()
    }
}

/// Decodes the source bytes, resizes the raster to exactly `width` by
/// `height`, and encodes it as a baseline JPEG, reporting any decode
/// or encode failure as an error.
pub fn thumbnail_image_rs(img_bytes: &[u8], width: u32, height: u32) -> (r: Result<
    Vec<u8>,
    image::ImageError,
>)
    ensures
        r is Ok <==> thumbnail_ok_spec(img_bytes@, width, height),
        r matches Ok(v) ==> {
            &&& v@ == thumbnail_bytes_spec(img_bytes@, width, height)
            &&& v@.len() >= 4
            &&& v@[0] == 0xFF
            &&& v@[1] == 0xD8
            &&& v@[v@.len() - 2] == 0xFF
            &&& v@[v@.len() - 1] == 0xD9
        },
        img_bytes@.len() == 0 ==> r is Err,
{
    let img = match decode_rgb8(img_bytes) {
        Ok(img) => img,
        Err(e) => {
            return Err(e);
        },
    };
    let resized = resize_raster(&img, width, height);
    encode_jpeg(&resized, width, height)
}

/// The transform with the boundary failure policy: any failure —
/// unrecognized or corrupt source, or dimensions JPEG cannot carry,
/// zero included — yields an empty result instead of an error, so a
/// caller can only tell success from failure by the result's length.
pub fn thumbnail(img_bytes: &[u8], width: u32, height: u32) -> (r: Vec<u8>)
    ensures
        r@ == thumbnail_result_spec(img_bytes@, width, height),
        thumbnail_ok_spec(img_bytes@, width, height) ==> {
            &&& r@.len() >= 4
            &&& r@[0] == 0xFF
            &&& r@[1] == 0xD8
            &&& r@[r@.len() - 2] == 0xFF
            &&& r@[r@.len() - 1] == 0xD9
        },
        !thumbnail_ok_spec(img_bytes@, width, height) ==> r@.len() == 0,
        img_bytes@.len() == 0 ==> r@.len() == 0,
        width == 0 || height == 0 ==> r@.len() == 0,
{
    match thumbnail_image_rs(img_bytes, width, height) {
        Ok(v) => v,
        Err(_) => Vec::new(),
    }
}

/// Determinism: the transform's result is a function of the source
/// bytes and the requested dimensions alone, so repeated calls with
/// identical inputs yield byte-identical output.
pub proof fn lemma_thumbnail_deterministic(
    bytes: Seq<u8>,
    width: u32,
    height: u32,
    r1: Seq<u8>,
    r2: Seq<u8>,
)
    requires
        r1 == thumbnail_result_spec(bytes, width, height),
        r2 == thumbnail_result_spec(bytes, width, height),
    ensures
        r1 == r2,
{
}

} // verus!
