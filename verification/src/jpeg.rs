//! Sniffing and header parsing for the recognized image containers.
//!
//! A JPEG stream is a sequence of marker segments; the pixel dimensions
//! stand in the first start-of-frame segment, and EXIF data stands in an
//! APP1 segment whose payload opens with `Exif\0\0`.  A PNG stream carries
//! its dimensions at a fixed offset in the IHDR chunk.

use vstd::prelude::*;
use crate::bytes::be16;
use crate::bytes::be32;
use crate::bytes::read_be16;
use crate::bytes::read_be32;
use crate::image::Dimensions;

verus! {

/// True of bytes that open a JPEG stream (the SOI marker).
pub open spec fn is_jpeg(b: Seq<u8>) -> bool {
    b.len() >= 2 && b[0] == 0xffu8 && b[1] == 0xd8u8
}

/// True of bytes that open a PNG stream with room for the IHDR chunk: the
/// eight signature bytes, then the IHDR length and type, then at least the
/// eight bytes of width and height.
pub open spec fn is_png(b: Seq<u8>) -> bool {
    b.len() >= 24 && b[0] == 0x89u8 && b[1] == 0x50u8 && b[2] == 0x4eu8 && b[3] == 0x47u8 && b[4]
        == 0x0du8 && b[5] == 0x0au8 && b[6] == 0x1au8 && b[7] == 0x0au8 && b[12] == 0x49u8 && b[13]
        == 0x48u8 && b[14] == 0x44u8 && b[15] == 0x52u8
}

/// The raw dimensions a PNG declares in its IHDR chunk.
pub open spec fn spec_png_dimensions(b: Seq<u8>) -> Dimensions
    recommends
        is_png(b),
{
    Dimensions { width: be32(b, 16) as u32, height: be32(b, 20) as u32 }
}

/// Decides whether the bytes open a JPEG stream.
pub fn sniff_jpeg(b: &Vec<u8>) -> (r: bool)
    ensures
        r == is_jpeg(b@),
{
    b.len() >= 2 && b[0] == 0xff && b[1] == 0xd8
}

/// Decides whether the bytes open a PNG stream with a readable IHDR.
pub fn sniff_png(b: &Vec<u8>) -> (r: bool)
    ensures
        r == is_png(b@),
{
    b.len() >= 24 && b[0] == 0x89 && b[1] == 0x50 && b[2] == 0x4e && b[3] == 0x47 && b[4] == 0x0d
        && b[5] == 0x0a && b[6] == 0x1a && b[7] == 0x0a && b[12] == 0x49 && b[13] == 0x48 && b[14]
        == 0x44 && b[15] == 0x52
}

/// Reads the raw dimensions a PNG declares.
pub fn png_dimensions(b: &Vec<u8>) -> (r: Dimensions)
    requires
        is_png(b@),
    ensures
        r == spec_png_dimensions(b@),
{
    Dimensions { width: read_be32(b, 16), height: read_be32(b, 20) }
}

/// True of the markers that open a start-of-frame segment, whose payload
/// carries the pixel dimensions.  `C4` (Huffman tables), `C8` and `CC` are
/// other segments that share the `Cx` range.
pub open spec fn is_sof_marker(m: u8) -> bool {
    0xc0 <= m <= 0xcf && m != 0xc4u8 && m != 0xc8u8 && m != 0xccu8
}

/// The raw dimensions declared by the first start-of-frame segment at or
/// after offset `p`, walking the marker segments as a decoder would: over
/// padding and standalone markers, past every measured segment, stopping
/// at start-of-scan, end-of-image, or anything malformed.
pub open spec fn spec_find_sof(b: Seq<u8>, p: int) -> Option<Dimensions>
    decreases b.len() - p,
{
    if p < 0 || p + 4 > b.len() {
        Option::None
    } else if b[p] != 0xffu8 {
        Option::None
    } else {
        let m = b[p + 1];
        if is_sof_marker(m) {
            if p + 9 <= b.len() {
                Option::Some(
                    Dimensions { width: be16(b, p + 7) as u32, height: be16(b, p + 5) as u32 },
                )
            } else {
                Option::None
            }
        } else if m == 0xdau8 || m == 0xd9u8 {
            Option::None
        } else if (0xd0 <= m && m <= 0xd7) || m == 0x01u8 {
            spec_find_sof(b, p + 2)
        } else if m == 0xffu8 {
            spec_find_sof(b, p + 1)
        } else {
            let l = be16(b, p + 2);
            if l < 2 {
                Option::None
            } else if p + 2 + l > b.len() {
                Option::None
            } else {
                spec_find_sof(b, p + 2 + l)
            }
        }
    }
}

/// Finds the dimensions of a JPEG's first start-of-frame segment.
pub fn find_sof(b: &Vec<u8>) -> (r: Option<Dimensions>)
    ensures
        r == spec_find_sof(b@, 2),
{
    let mut p: usize = 2;
    while p <= b.len() && b.len() - p >= 4
        invariant
            2 <= p,
            spec_find_sof(b@, 2) == spec_find_sof(b@, p as int),
        decreases b@.len() - p,
    {
        if b[p] != 0xff {
            return Option::None;
        }
        let m = b[p + 1];
        if (0xc0 <= m && m <= 0xcf) && m != 0xc4 && m != 0xc8 && m != 0xcc {
            if b.len() - p >= 9 {
                let height = read_be16(b, p + 5);
                let width = read_be16(b, p + 7);
                return Option::Some(Dimensions { width: width as u32, height: height as u32 });
            } else {
                return Option::None;
            }
        } else if m == 0xda || m == 0xd9 {
            return Option::None;
        } else if (0xd0 <= m && m <= 0xd7) || m == 0x01 {
            p = p + 2;
        } else if m == 0xff {
            p = p + 1;
        } else {
            let l = read_be16(b, p + 2) as usize;
            if l < 2 {
                return Option::None;
            } else if b.len() - p - 2 < l {
                return Option::None;
            } else {
                p = p + 2 + l;
            }
        }
    }
    Option::None
}

/// True of six bytes reading `Exif\0\0`, the prefix an EXIF APP1 payload
/// opens with.
pub open spec fn is_exif_prefix(b: Seq<u8>, q: int) -> bool {
    b[q] == 0x45u8 && b[q + 1] == 0x78u8 && b[q + 2] == 0x69u8 && b[q + 3] == 0x66u8 && b[q + 4]
        == 0x00u8 && b[q + 5] == 0x00u8
}

/// The position and length of the TIFF block inside the first EXIF APP1
/// segment at or after offset `p`: the segment payload after its `Exif\0\0`
/// prefix.  The walk is the same as for the start-of-frame search.
pub open spec fn spec_find_exif(b: Seq<u8>, p: int) -> Option<(int, int)>
    decreases b.len() - p,
{
    if p < 0 || p + 4 > b.len() {
        Option::None
    } else if b[p] != 0xffu8 {
        Option::None
    } else {
        let m = b[p + 1];
        if m == 0xdau8 || m == 0xd9u8 {
            Option::None
        } else if (0xd0 <= m && m <= 0xd7) || m == 0x01u8 {
            spec_find_exif(b, p + 2)
        } else if m == 0xffu8 {
            spec_find_exif(b, p + 1)
        } else {
            let l = be16(b, p + 2);
            if l < 2 {
                Option::None
            } else if p + 2 + l > b.len() {
                Option::None
            } else if m == 0xe1u8 && l >= 8 && is_exif_prefix(b, p + 4) {
                Option::Some((p + 10, l - 8))
            } else {
                spec_find_exif(b, p + 2 + l)
            }
        }
    }
}

/// Finds the TIFF block of a JPEG's first EXIF APP1 segment.
fn find_exif(b: &Vec<u8>) -> (r: Option<(usize, usize)>)
    ensures
        match r {
            Option::Some((s, l)) => spec_find_exif(b@, 2) == Option::Some((s as int, l as int)) && s
                + l <= b@.len(),
            Option::None => spec_find_exif(b@, 2) is None,
        },
{
    let mut p: usize = 2;
    while p <= b.len() && b.len() - p >= 4
        invariant
            2 <= p,
            spec_find_exif(b@, 2) == spec_find_exif(b@, p as int),
        decreases b@.len() - p,
    {
        if b[p] != 0xff {
            return Option::None;
        }
        let m = b[p + 1];
        if m == 0xda || m == 0xd9 {
            return Option::None;
        } else if (0xd0 <= m && m <= 0xd7) || m == 0x01 {
            p = p + 2;
        } else if m == 0xff {
            p = p + 1;
        } else {
            let l = read_be16(b, p + 2) as usize;
            if l < 2 {
                return Option::None;
            } else if b.len() - p - 2 < l {
                return Option::None;
            } else if m == 0xe1 && l >= 8 && b[p + 4] == 0x45 && b[p + 5] == 0x78 && b[p + 6]
                == 0x69 && b[p + 7] == 0x66 && b[p + 8] == 0x00 && b[p + 9] == 0x00 {
                return Option::Some((p + 10, l - 8));
            } else {
                p = p + 2 + l;
            }
        }
    }
    Option::None
}

/// Copies the TIFF block of a JPEG's first EXIF APP1 segment, if one is
/// present.
pub fn exif_payload(b: &Vec<u8>) -> (r: Option<Vec<u8>>)
    ensures
        match spec_find_exif(b@, 2) {
            Option::Some((s, l)) => r matches Option::Some(v) && v@ == b@.subrange(s, s + l),
            Option::None => r is None,
        },
{
    match find_exif(b) {
        Option::Some((s, l)) => {
            let mut v: Vec<u8> = Vec::new();
            let mut k: usize = 0;
            proof {
                assert(v@ =~= b@.subrange(s as int, s as int));
            }
            while k < l
                invariant
                    k <= l,
                    s + l <= b.len(),
                    v@ == b@.subrange(s as int, s as int + k as int),
                decreases l - k,
            {
                v.push(b[s + k]);
                proof {
                    assert(v@ =~= b@.subrange(s as int, s as int + k as int + 1));
                }
                k += 1;
            }
            Option::Some(v)
        },
        Option::None => Option::None,
    }
}

} // verus!
