//! The image introspector: decides whether uploaded bytes are a
//! recognizable image and, if so, reports its format, its logical
//! dimensions, and its EXIF fields.
//!
//! Failure to recognize an image is never an error of the upload — the
//! bytes are then treated as an opaque blob.

use vstd::prelude::*;
use crate::exif::spec_parse_exif;
use crate::exif::parse_exif;
use crate::image::Dimensions;
use crate::image::ImageFormat;
use crate::image::ImageMetadata;
use crate::image::SpecExifData;
use crate::image::SpecImageMetadata;
use crate::image::spec_logical_dimensions;
use crate::image::logical_dimensions;
use crate::jpeg::exif_payload;
use crate::jpeg::find_sof;
use crate::jpeg::is_jpeg;
use crate::jpeg::is_png;
use crate::jpeg::png_dimensions;
use crate::jpeg::sniff_jpeg;
use crate::jpeg::sniff_png;
use crate::jpeg::spec_find_exif;
use crate::jpeg::spec_find_sof;
use crate::jpeg::spec_png_dimensions;

verus! {

/// The EXIF data of a JPEG stream: the parse of its first EXIF APP1
/// payload, when one is present and its header is sound.
pub open spec fn spec_jpeg_exif(b: Seq<u8>) -> Option<SpecExifData> {
    match spec_find_exif(b, 2) {
        Option::Some((s, l)) => spec_parse_exif(b.subrange(s, s + l)),
        Option::None => Option::None,
    }
}

/// What introspection reports for the given bytes.
///
/// A PNG with a readable header reports its raw dimensions and no EXIF
/// data.  A JPEG with a start-of-frame segment reports its logical
/// dimensions — raw dimensions swapped when the EXIF orientation implies
/// a quarter turn — and its EXIF fields.  Anything else, and any image
/// declaring a zero dimension, is not an image to this pipeline.
pub open spec fn spec_introspect(b: Seq<u8>) -> Option<SpecImageMetadata> {
    if is_png(b) {
        let d = spec_png_dimensions(b);
        if d.width >= 1 && d.height >= 1 {
            Option::Some(
                SpecImageMetadata { format: ImageFormat::Png, dimensions: d, exif: Option::None },
            )
        } else {
            Option::None
        }
    } else if is_jpeg(b) {
        match spec_find_sof(b, 2) {
            Option::Some(raw) => if raw.width >= 1 && raw.height >= 1 {
                let exif = spec_jpeg_exif(b);
                let orientation = match exif {
                    Option::Some(e) => e.orientation,
                    Option::None => Option::None,
                };
                Option::Some(
                    SpecImageMetadata {
                        format: ImageFormat::Jpeg,
                        dimensions: spec_logical_dimensions(raw, orientation),
                        exif,
                    },
                )
            } else {
                Option::None
            },
            Option::None => Option::None,
        }
    } else {
        Option::None
    }
}

/// A recognized image always has positive logical dimensions.
pub proof fn lemma_introspect_dimensions_positive(b: Seq<u8>)
    ensures
        match spec_introspect(b) {
            Option::Some(m) => m.dimensions.width >= 1 && m.dimensions.height >= 1,
            Option::None => true,
        },
{
}

/// Attempts to recognize the bytes as an image and extract its metadata.
pub fn introspect(b: &Vec<u8>) -> (r: Option<ImageMetadata>)
    ensures
        match r {
            Option::Some(m) => spec_introspect(b@) == Option::Some(m@),
            Option::None => spec_introspect(b@) is None,
        },
{
    if sniff_png(b) {
        let d = png_dimensions(b);
        if d.width >= 1 && d.height >= 1 {
            Option::Some(
                ImageMetadata { format: ImageFormat::Png, dimensions: d, exif: Option::None },
            )
        } else {
            Option::None
        }
    } else if sniff_jpeg(b) {
        match find_sof(b) {
            Option::Some(raw) => {
                if raw.width >= 1 && raw.height >= 1 {
                    let exif = match exif_payload(b) {
                        Option::Some(payload) => parse_exif(&payload),
                        Option::None => Option::None,
                    };
                    let orientation = match &exif {
                        Option::Some(e) => e.orientation,
                        Option::None => Option::None,
                    };
                    let dims = logical_dimensions(raw, orientation);
                    Option::Some(
                        ImageMetadata { format: ImageFormat::Jpeg, dimensions: dims, exif },
                    )
                } else {
                    Option::None
                }
            },
            Option::None => Option::None,
        }
    } else {
        Option::None
    }
}

} // verus!
