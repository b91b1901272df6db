use vstd::prelude::*;
use vstd::string::StringExecFns;

use crate::api::Image;
use exif::{In, Rational, Reader, Tag, Value};
use image::ImageReader;
use std::io::Cursor;

verus! {

/// The pixel dimensions (width, height) that header decoding yields for
/// a byte sequence whose format is sniffed from its leading bytes, or
/// `None` where the bytes are not a decodable image.  A function of the
/// bytes alone; its value is fixed only through `decode_dimensions`.
pub uninterp spec fn dims_of(bytes: Seq<u8>) -> Option<(u32, u32)>;

/// The (numerator, denominator) pairs stored under the primary image's
/// horizontal-resolution tag in the embedded metadata, or `None` where
/// the metadata is unparseable, the tag is absent, or its value is not
/// of rational shape.  A function of the bytes alone; its value is
/// fixed only through `read_xresolution`.
pub uninterp spec fn xres_of(bytes: Seq<u8>) -> Option<Seq<(u32, u32)>>;

/// The unsigned integer that converting the rational num/den to a
/// floating value and truncating yields.  Its value is fixed only
/// through `rational_dpi`.
pub uninterp spec fn dpi_of_rational(num: u32, den: u32) -> u32;

/// The horizontal resolution reported where the metadata gives none.
pub const DEFAULT_DPI: u32 = 72;

/// Relies on image::ImageReader::with_guessed_format and
/// into_dimensions: the container format is detected from the leading
/// bytes, never from a file name, and the pixel dimensions are read
/// from the image header; the result depends on the bytes alone.
#[verifier::external_body]
fn decode_dimensions(bytes: &[u8]) -> (r: Option<(u32, u32)>)
    ensures
        r == dims_of(bytes@),
{
    let reader = match ImageReader::new(Cursor::new(bytes)).with_guessed_format() {
        Ok(reader) => reader,
        Err(_) => {
            return None;
        },
    };
    reader.into_dimensions().ok()
}

/// The horizontal-resolution lookup as the verified code sees it: the
/// plain pairs where the tag held a rational list, and `None` for every
/// failure shape.
pub open spec fn rationals_view(x: Option<Vec<(u32, u32)>>) -> Option<Seq<(u32, u32)>> {
    match x {
        Some(v) => Some(v@),
        None => None,
    }
}

/// Relies on exif::Reader::read_from_container and Exif::get_field: the
/// embedded metadata is parsed out of the byte stream, the primary
/// image's horizontal-resolution field is looked up, and its rationals
/// are handed out as plain pairs; the result depends on the bytes
/// alone.
#[verifier::external_body]
fn read_xresolution(bytes: &[u8]) -> (r: Option<Vec<(u32, u32)>>)
    ensures
        rationals_view(r) == xres_of(bytes@),
{
    let exif = match Reader::new().read_from_container(&mut Cursor::new(bytes)) {
        Ok(exif) => exif,
        Err(_) => {
            return None;
        },
    };
    match exif.get_field(Tag::XResolution, In::PRIMARY) {
        Some(field) => match &field.value {
            Value::Rational(v) => Some(v.iter().map(|x| (x.num, x.denom)).collect()),
            _ => None,
        },
        None => None,
    }
}

/// Relies on exif::Rational::to_f32: num over den as a floating value,
/// truncated to an unsigned integer.  The result depends on num and den
/// alone; a numerator below 2^24 over denominator 1, and a zero
/// numerator over a nonzero denominator, convert exactly.
#[verifier::external_body]
fn rational_dpi(num: u32, den: u32) -> (r: u32)
    ensures
        r == dpi_of_rational(num, den),
        den == 1 && num < 0x1000000 ==> r == num,
        num == 0 && den != 0 ==> r == 0,
{
    Rational { num, denom: den }.to_f32() as u32
}

/// The resolution the reader reports for a horizontal-resolution
/// lookup: the truncated floating value of the first rational where the
/// tag held a non-empty rational list, and the default otherwise.  A
/// present zero rational counts as a value, not as a miss.
pub open spec fn spec_dpi(xres: Option<Seq<(u32, u32)>>) -> u32 {
    match xres {
        Some(v) => if v.len() > 0 {
            dpi_of_rational(v[0].0, v[0].1)
        } else {
            DEFAULT_DPI
        },
        None => DEFAULT_DPI,
    }
}

/// Maps a horizontal-resolution lookup to the DPI the reader reports.
pub fn dpi_from_xres(xres: &Option<Vec<(u32, u32)>>) -> (r: u32)
    ensures
        r == spec_dpi(rationals_view(*xres)),
{
    match xres {
        Some(v) => {
            if v.len() > 0 {
                let pair = v[0];
                rational_dpi(pair.0, pair.1)
            } else {
                DEFAULT_DPI
            }
        },
        None => DEFAULT_DPI,
    }
}

/// What `info` promises of its result: a record comes back exactly when
/// the bytes decode as an image, and it carries the given path, the
/// decoded dimensions, and the DPI of the resolution policy.
pub open spec fn info_post(path: Seq<char>, bytes: Seq<u8>, r: Option<Image>) -> bool {
    match dims_of(bytes) {
        Some(wh) => {
            &&& r is Some
            &&& r->0.path@ == path
            &&& r->0.width == wh.0
            &&& r->0.height == wh.1
            &&& r->0.dpi == spec_dpi(xres_of(bytes))
        },
        None => r is None,
    }
}

/// Reads the image record out of a file's bytes: decodes the pixel
/// dimensions, then looks up the embedded horizontal resolution,
/// defaulting the DPI where the metadata gives none.  Returns `None`
/// where the bytes are not a decodable image; it never aborts.
pub fn info(path: &str, bytes: &[u8]) -> (r: Option<Image>)
    ensures
        info_post(path@, bytes@, r),
{
    match decode_dimensions(bytes) {
        Some(wh) => {
            let xres = read_xresolution(bytes);
            let dpi = dpi_from_xres(&xres);
            Some(
                Image {
                    path: String::from_str(path),
                    dpi,
                    width: wh.0,
                    height: wh.1,
                },
            )
        },
        None => None,
    }
}

/// Reading the same bytes twice yields identical records: what `info`
/// returns is a function of the path and the bytes alone, so a second
/// read of an unchanged file repeats the first.
pub proof fn lemma_info_read_only(
    path: Seq<char>,
    bytes: Seq<u8>,
    r1: Option<Image>,
    r2: Option<Image>,
)
    requires
        info_post(path, bytes, r1),
        info_post(path, bytes, r2),
    ensures
        r1 is Some <==> r2 is Some,
        r1 is Some ==> {
            &&& r1->0.path@ == r2->0.path@
            &&& r1->0.dpi == r2->0.dpi
            &&& r1->0.width == r2->0.width
            &&& r1->0.height == r2->0.height
        },
{
}

/// Where the bytes decode but the metadata yields no resolution value,
/// the record's DPI is the default: a missing tag, an unparseable
/// container and an empty rational list all fall back alike.
pub proof fn lemma_default_dpi(path: Seq<char>, bytes: Seq<u8>, r: Option<Image>)
    requires
        info_post(path, bytes, r),
        dims_of(bytes) is Some,
        xres_of(bytes) is None || xres_of(bytes)->0.len() == 0,
    ensures
        r is Some,
        r->0.dpi == DEFAULT_DPI,
{
}

} // verus!
