//! Image metadata and thumbnail geometry.
//!
//! An upload that decodes as an image carries logical dimensions (corrected
//! for EXIF orientation) and whatever EXIF fields were present, each one
//! independently optional.  A thumbnail is derived only when the logical
//! dimensions exceed a fixed threshold, and is bounded to fit within
//! `THUMBNAIL_MAX_WIDTH x THUMBNAIL_MAX_HEIGHT` while preserving the
//! aspect ratio.

use vstd::prelude::*;
use vstd::arithmetic::div_mod::lemma_div_is_ordered;
use vstd::arithmetic::div_mod::lemma_div_multiples_vanish;
use vstd::arithmetic::div_mod::lemma_fundamental_div_mod;

verus! {

/// Height bound of a derived thumbnail.
pub const THUMBNAIL_MAX_HEIGHT: u32 = 400;

/// Width bound of a derived thumbnail: three times the height bound.
pub const THUMBNAIL_MAX_WIDTH: u32 = 1200;

/// Raw or logical pixel dimensions of an image.
#[derive(Clone, Copy, Debug, PartialEq, Eq, Structural)]
pub struct Dimensions {
    pub width: u32,
    pub height: u32,
}

/// The image container formats the introspector recognizes.
#[derive(Clone, Copy, Debug, PartialEq, Eq, Structural)]
pub enum ImageFormat {
    Jpeg,
    Png,
}

/// An unreduced ratio of two unsigned integers, as EXIF stores exposure
/// times, f-numbers and focal lengths.
#[derive(Clone, Copy, Debug, PartialEq, Eq, Structural)]
pub struct Rational {
    pub numerator: u32,
    pub denominator: u32,
}

/// A GPS coordinate in decimal degrees, held exactly as a signed ratio:
/// the value is `numerator / denominator`, negated when `negative` (south
/// or west).
#[derive(Clone, Copy, Debug, PartialEq, Eq, Structural)]
pub struct GpsCoordinate {
    pub negative: bool,
    pub numerator: u128,
    pub denominator: u128,
}

/// EXIF fields extracted from a JPEG, each independently optional.
#[derive(Clone, Debug)]
pub struct ExifData {
    pub orientation: Option<u16>,
    pub gps_latitude: Option<GpsCoordinate>,
    pub gps_longitude: Option<GpsCoordinate>,
    pub make: Option<String>,
    pub model: Option<String>,
    pub software: Option<String>,
    pub user_comment: Option<String>,
    pub camera_owner: Option<String>,
    pub exposure_time: Option<Rational>,
    pub f_number: Option<Rational>,
    pub focal_length: Option<Rational>,
    pub iso: Option<u16>,
}

/// The mathematical value of `ExifData`, with strings as character
/// sequences.
pub struct SpecExifData {
    pub orientation: Option<u16>,
    pub gps_latitude: Option<GpsCoordinate>,
    pub gps_longitude: Option<GpsCoordinate>,
    pub make: Option<Seq<char>>,
    pub model: Option<Seq<char>>,
    pub software: Option<Seq<char>>,
    pub user_comment: Option<Seq<char>>,
    pub camera_owner: Option<Seq<char>>,
    pub exposure_time: Option<Rational>,
    pub f_number: Option<Rational>,
    pub focal_length: Option<Rational>,
    pub iso: Option<u16>,
}

impl View for ExifData {
    type V = SpecExifData;

    open spec fn view(&self) -> SpecExifData {
        SpecExifData {
            orientation: self.orientation,
            gps_latitude: self.gps_latitude,
            gps_longitude: self.gps_longitude,
            make: self.make.deep_view(),
            model: self.model.deep_view(),
            software: self.software.deep_view(),
            user_comment: self.user_comment.deep_view(),
            camera_owner: self.camera_owner.deep_view(),
            exposure_time: self.exposure_time,
            f_number: self.f_number,
            focal_length: self.focal_length,
            iso: self.iso,
        }
    }
}

/// What introspection reports of an image: its format, its logical
/// (orientation-corrected) dimensions, and its EXIF fields when a JPEG
/// carried a parseable EXIF block.
#[derive(Clone, Debug)]
pub struct ImageMetadata {
    pub format: ImageFormat,
    pub dimensions: Dimensions,
    pub exif: Option<ExifData>,
}

/// The mathematical value of `ImageMetadata`.
pub struct SpecImageMetadata {
    pub format: ImageFormat,
    pub dimensions: Dimensions,
    pub exif: Option<SpecExifData>,
}

impl View for ImageMetadata {
    type V = SpecImageMetadata;

    open spec fn view(&self) -> SpecImageMetadata {
        SpecImageMetadata {
            format: self.format,
            dimensions: self.dimensions,
            exif: match self.exif {
                Option::Some(e) => Option::Some(e@),
                Option::None => Option::None,
            },
        }
    }
}

/// True of the EXIF orientation codes that imply a quarter-turn rotation
/// (with or without mirroring), after which the logical width and height
/// are the raw height and width.
pub open spec fn orientation_swaps_axes(o: u16) -> bool {
    o == 5 || o == 6 || o == 7 || o == 8
}

/// The logical dimensions of an image: raw dimensions, swapped when the
/// EXIF orientation implies a quarter turn, untouched for every other
/// orientation value and when no orientation is present.
pub open spec fn spec_logical_dimensions(raw: Dimensions, orientation: Option<u16>) -> Dimensions {
    match orientation {
        Option::Some(o) => if orientation_swaps_axes(o) {
            Dimensions { width: raw.height, height: raw.width }
        } else {
            raw
        },
        Option::None => raw,
    }
}

/// Applies the orientation correction to raw pixel dimensions.
pub fn logical_dimensions(raw: Dimensions, orientation: Option<u16>) -> (r: Dimensions)
    ensures
        r == spec_logical_dimensions(raw, orientation),
{
    match orientation {
        Option::Some(o) => {
            if o == 5 || o == 6 || o == 7 || o == 8 {
                Dimensions { width: raw.height, height: raw.width }
            } else {
                raw
            }
        },
        Option::None => raw,
    }
}

/// True when an image warrants a thumbnail: its logical height exceeds the
/// height bound, or its logical width exceeds the width bound.
pub open spec fn spec_needs_thumbnail(d: Dimensions) -> bool {
    d.height > THUMBNAIL_MAX_HEIGHT || d.width > THUMBNAIL_MAX_WIDTH
}

/// Decides whether a thumbnail is derived for the given logical
/// dimensions.
pub fn needs_thumbnail(d: Dimensions) -> (r: bool)
    ensures
        r == spec_needs_thumbnail(d),
{
    d.height > THUMBNAIL_MAX_HEIGHT || d.width > THUMBNAIL_MAX_WIDTH
}

/// The dimensions of the thumbnail derived for an image: scaled down to
/// fit within the width and height bounds, preserving the aspect ratio
/// (rounding down, never below one pixel).
pub open spec fn spec_thumbnail_dimensions(d: Dimensions) -> Dimensions
    recommends
        d.width >= 1,
        d.height >= 1,
{
    if d.width * THUMBNAIL_MAX_HEIGHT >= d.height * THUMBNAIL_MAX_WIDTH {
        let th = d.height * THUMBNAIL_MAX_WIDTH / (d.width as int);
        Dimensions {
            width: THUMBNAIL_MAX_WIDTH,
            height: if th >= 1 { th as u32 } else { 1u32 },
        }
    } else {
        let tw = d.width * THUMBNAIL_MAX_HEIGHT / (d.height as int);
        Dimensions {
            width: if tw >= 1 { tw as u32 } else { 1u32 },
            height: THUMBNAIL_MAX_HEIGHT,
        }
    }
}

/// The thumbnail bounds hold: a derived thumbnail's dimensions always fit
/// within `THUMBNAIL_MAX_WIDTH x THUMBNAIL_MAX_HEIGHT`, are at least one
/// pixel each, and the unbounded axis is the rounded-down aspect-preserving
/// scale of the source.
pub proof fn lemma_thumbnail_dimensions_fit(d: Dimensions)
    requires
        d.width >= 1,
        d.height >= 1,
    ensures
        1 <= spec_thumbnail_dimensions(d).width <= THUMBNAIL_MAX_WIDTH,
        1 <= spec_thumbnail_dimensions(d).height <= THUMBNAIL_MAX_HEIGHT,
        spec_thumbnail_dimensions(d).width == THUMBNAIL_MAX_WIDTH || spec_thumbnail_dimensions(
            d,
        ).height == THUMBNAIL_MAX_HEIGHT,
{
    let w = d.width as int;
    let h = d.height as int;
    if w * THUMBNAIL_MAX_HEIGHT >= h * THUMBNAIL_MAX_WIDTH {
        let th = h * THUMBNAIL_MAX_WIDTH / w;
        assert(th <= THUMBNAIL_MAX_HEIGHT) by {
            lemma_div_is_ordered(h * (THUMBNAIL_MAX_WIDTH as int), w * (THUMBNAIL_MAX_HEIGHT as int), w);
            lemma_div_multiples_vanish(THUMBNAIL_MAX_HEIGHT as int, w);
        }
        assert(th >= 0) by {
            lemma_fundamental_div_mod(h * (THUMBNAIL_MAX_WIDTH as int), w);
        }
    } else {
        let tw = w * THUMBNAIL_MAX_HEIGHT / h;
        assert(tw <= THUMBNAIL_MAX_WIDTH) by {
            lemma_div_is_ordered(w * (THUMBNAIL_MAX_HEIGHT as int), h * (THUMBNAIL_MAX_WIDTH as int), h);
            lemma_div_multiples_vanish(THUMBNAIL_MAX_WIDTH as int, h);
        }
        assert(tw >= 0) by {
            lemma_fundamental_div_mod(w * (THUMBNAIL_MAX_HEIGHT as int), h);
        }
    }
}

/// Computes the dimensions a derived thumbnail is resized to.
pub fn thumbnail_dimensions(d: Dimensions) -> (r: Dimensions)
    requires
        d.width >= 1,
        d.height >= 1,
    ensures
        r == spec_thumbnail_dimensions(d),
{
    proof {
        lemma_thumbnail_dimensions_fit(d);
    }
    let w = d.width as u64;
    let h = d.height as u64;
    if w * (THUMBNAIL_MAX_HEIGHT as u64) >= h * (THUMBNAIL_MAX_WIDTH as u64) {
        let th = h * (THUMBNAIL_MAX_WIDTH as u64) / w;
        Dimensions {
            width: THUMBNAIL_MAX_WIDTH,
            height: if th >= 1 {
                th as u32
            } else {
                1
            },
        }
    } else {
        let tw = w * (THUMBNAIL_MAX_HEIGHT as u64) / h;
        Dimensions {
            width: if tw >= 1 {
                tw as u32
            } else {
                1
            },
            height: THUMBNAIL_MAX_HEIGHT,
        }
    }
}

} // verus!
