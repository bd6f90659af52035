//! Decoding a multi-resolution icon container into one normalized raster
//! image.
//!
//! The container format itself is read by the `icns` crate behind trusted
//! wrappers; this module owns the selection policy (the first variant the
//! container lists), the consistency check on the decoded pixels, and the
//! error taxonomy.

use vstd::prelude::*;

use crate::entry::{raster_wf, RasterImage, RasterV};

verus! {

/// Why a container yielded no image.  Every value is non-fatal to the
/// caller: a decode error always means "no icon", never a failed scan.
#[derive(Clone, Copy, PartialEq, Eq, Structural, Debug)]
pub enum DecodeError {
    /// The bytes are not readable as an icon container.
    Malformed,
    /// The container lists no complete icon variant.
    Empty,
    /// The first listed variant does not decode to a consistent image.
    Corrupt,
}

#[verifier::external_type_specification]
#[verifier::external_body]
pub struct ExIconFamily(icns::IconFamily);

/// A parsed icon container, keeping the bytes it was read from, so that
/// everything later extracted from it is pinned to those bytes.
pub struct IconSource {
    family: icns::IconFamily,
    src: Vec<u8>,
}

impl IconSource {
    /// The container bytes this value was parsed from.
    pub closed spec fn src(&self) -> Seq<u8> {
        self.src@
    }
}

/// Whether `icns::IconFamily::read` accepts the bytes as a container.
pub uninterp spec fn icns_parses(data: Seq<u8>) -> bool;

/// How many complete icon variants the parsed container lists, in its own
/// directory order.
pub uninterp spec fn icns_variant_count(data: Seq<u8>) -> nat;

/// What decoding the first listed variant of the container yields: width,
/// height and raw pixel bytes, or nothing when that variant does not
/// decode.
pub uninterp spec fn icns_first_image(data: Seq<u8>) -> Option<RasterV>;

/// Relies on `icns::IconFamily::read`: whether bytes parse as an icon
/// container is a function of the bytes alone.
#[verifier::external_body]
fn read_family(data: &Vec<u8>) -> (r: Option<IconSource>)
    ensures
        r is Some <==> icns_parses(data@),
        r is Some ==> r->Some_0.src() == data@,
{
    match icns::IconFamily::read(std::io::Cursor::new(data.as_slice())) {
        Ok(family) => Some(IconSource { family, src: data.clone() }),
        Err(_) => None,
    }
}

/// Relies on `icns::IconFamily::available_icons`: the list of complete
/// variants is a function of the container alone.
#[verifier::external_body]
fn variant_count(f: &IconSource) -> (n: usize)
    ensures
        n == icns_variant_count(f.src()),
{
    f.family.available_icons().len()
}

/// Relies on `icns::IconFamily::available_icons` and
/// `icns::IconFamily::get_icon_with_type`: decodes the variant the
/// container lists first; the result is a function of the container
/// bytes alone.
#[verifier::external_body]
fn decode_first_variant(f: &IconSource) -> (r: Option<(u32, u32, Vec<u8>)>)
    requires
        icns_variant_count(f.src()) > 0,
    ensures
        (match r {
            Some(t) => Some((t.0, t.1, t.2@)),
            None => None::<RasterV>,
        }) == icns_first_image(f.src()),
{
    let kinds = f.family.available_icons();
    let first = match kinds.first() {
        Some(t) => *t,
        None => return None,
    };
    match f.family.get_icon_with_type(first) {
        Ok(icon) => Some((icon.width(), icon.height(), icon.data().to_vec())),
        Err(_) => None,
    }
}

/// What [`decode`] returns for a given container: the first listed
/// variant as a raster image, if it parses, exists, and is consistent.
pub open spec fn spec_decode(data: Seq<u8>) -> Result<RasterV, DecodeError> {
    if !icns_parses(data) {
        Err(DecodeError::Malformed)
    } else if icns_variant_count(data) == 0 {
        Err(DecodeError::Empty)
    } else {
        match icns_first_image(data) {
            None => Err(DecodeError::Corrupt),
            Some(img) => if raster_wf(img) {
                Ok(img)
            } else {
                Err(DecodeError::Corrupt)
            },
        }
    }
}

/// The value of a decode result, for stating contracts.
pub open spec fn decode_result_view(r: Result<RasterImage, DecodeError>) -> Result<
    RasterV,
    DecodeError,
> {
    match r {
        Ok(img) => Ok(img@),
        Err(e) => Err(e),
    }
}

/// Decodes an icon container into a single raster image, picking the
/// first variant the container's own directory lists, and validating that
/// width, height and buffer length are mutually consistent.
pub fn decode(data: &Vec<u8>) -> (r: Result<RasterImage, DecodeError>)
    ensures
        decode_result_view(r) == spec_decode(data@),
        r is Ok ==> r->Ok_0.wf(),
{
    let f = match read_family(data) {
        Some(f) => f,
        None => {
            return Err(DecodeError::Malformed);
        },
    };
    if variant_count(&f) == 0 {
        return Err(DecodeError::Empty);
    }
    let (w, h, d) = match decode_first_variant(&f) {
        Some(t) => t,
        None => {
            return Err(DecodeError::Corrupt);
        },
    };
    match RasterImage::new(w, h, d) {
        Some(img) => Ok(img),
        None => Err(DecodeError::Corrupt),
    }
}

} // verus!
