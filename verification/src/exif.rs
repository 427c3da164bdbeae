//! Parsing of the TIFF block an EXIF APP1 segment carries.
//!
//! The block declares its own byte order, then points at a chain of image
//! file directories (IFDs).  Each directory entry is twelve bytes: a tag,
//! a value kind, a count, and an inline value or an offset to the value.
//! The fields of interest stand in the first directory (orientation,
//! camera strings, pointers to the camera-settings and GPS directories)
//! and in those two sub-directories.  Anything malformed degrades to the
//! affected field being absent; a malformed header degrades to no EXIF
//! data at all.

use vstd::prelude::*;
use vstd::arithmetic::mul::lemma_mul_upper_bound;
use crate::bytes::rd16;
use crate::bytes::rd32;
use crate::bytes::read_u16;
use crate::bytes::read_u32;
use crate::encoding::ascii_chars;
use crate::encoding::ascii_to_string;
use crate::image::ExifData;
use crate::image::GpsCoordinate;
use crate::image::Rational;
use crate::image::SpecExifData;

verus! {

/// The byte order a TIFF block declares: `Some(true)` for little-endian
/// (`II`), `Some(false)` for big-endian (`MM`), `None` when the header is
/// malformed or truncated.
pub open spec fn spec_tiff_byte_order(t: Seq<u8>) -> Option<bool> {
    if t.len() < 8 {
        Option::None
    } else if t[0] == 0x49u8 && t[1] == 0x49u8 && rd16(t, true, 2) == 42 {
        Option::Some(true)
    } else if t[0] == 0x4du8 && t[1] == 0x4du8 && rd16(t, false, 2) == 42 {
        Option::Some(false)
    } else {
        Option::None
    }
}

/// Reads the declared byte order of a TIFF block.
fn tiff_byte_order(t: &Vec<u8>) -> (r: Option<bool>)
    ensures
        r == spec_tiff_byte_order(t@),
{
    if t.len() < 8 {
        Option::None
    } else if t[0] == 0x49 && t[1] == 0x49 && read_u16(t, true, 2) == 42 {
        Option::Some(true)
    } else if t[0] == 0x4d && t[1] == 0x4d && read_u16(t, false, 2) == 42 {
        Option::Some(false)
    } else {
        Option::None
    }
}

/// The offset of the first entry with the given tag among entries `i` and
/// later of the directory whose entries start at `base`, `n` entries in
/// all; `None` when no such entry stands within the block's bounds.
pub open spec fn spec_scan_entries(
    t: Seq<u8>,
    le: bool,
    base: int,
    n: int,
    tag: int,
    i: int,
) -> Option<int>
    decreases n - i,
{
    if i >= n {
        Option::None
    } else if base < 0 || base + 12 * i + 12 > t.len() {
        Option::None
    } else if rd16(t, le, base + 12 * i) == tag {
        Option::Some(base + 12 * i)
    } else {
        spec_scan_entries(t, le, base, n, tag, i + 1)
    }
}

/// The offset of the first entry with the given tag in the directory at
/// `ifd`.
pub open spec fn spec_find_entry(t: Seq<u8>, le: bool, ifd: int, tag: int) -> Option<int> {
    if ifd < 0 || ifd + 2 > t.len() {
        Option::None
    } else {
        spec_scan_entries(t, le, ifd + 2, rd16(t, le, ifd), tag, 0)
    }
}

/// Finds the first entry with the given tag in the directory at `ifd`.
fn find_entry(t: &Vec<u8>, le: bool, ifd: usize, tag: u16) -> (r: Option<usize>)
    ensures
        match r {
            Option::Some(e) => spec_find_entry(t@, le, ifd as int, tag as int) == Option::Some(
                e as int,
            ) && e + 12 <= t.len(),
            Option::None => spec_find_entry(t@, le, ifd as int, tag as int) is None,
        },
{
    if ifd > t.len() || t.len() - ifd < 2 {
        return Option::None;
    }
    let n = read_u16(t, le, ifd) as usize;
    let base = ifd + 2;
    let avail = t.len() - base;
    let mut i: usize = 0;
    while i < n
        invariant
            i <= n,
            n <= 65535,
            base == ifd + 2,
            base <= t.len(),
            avail == t.len() - base,
            ifd + 2 <= t.len(),
            n == rd16(t@, le, ifd as int),
            spec_scan_entries(t@, le, base as int, n as int, tag as int, 0) == spec_scan_entries(
                t@,
                le,
                base as int,
                n as int,
                tag as int,
                i as int,
            ),
        decreases n - i,
    {
        if 12 * i + 12 > avail {
            return Option::None;
        }
        let e = base + 12 * i;
        if read_u16(t, le, e) == tag {
            return Option::Some(e);
        }
        proof {
            assert(spec_scan_entries(t@, le, base as int, n as int, tag as int, i as int)
                == spec_scan_entries(t@, le, base as int, n as int, tag as int, i as int + 1));
        }
        i += 1;
    }
    Option::None
}

/// The kind code of the entry at `e` (3 short, 2 text, 4 long, 5 ratio,
/// 7 opaque).
pub open spec fn spec_entry_kind(t: Seq<u8>, le: bool, e: int) -> int {
    rd16(t, le, e + 2)
}

/// The value count of the entry at `e`.
pub open spec fn spec_entry_count(t: Seq<u8>, le: bool, e: int) -> int {
    rd32(t, le, e + 4)
}

/// The 16-bit value of the entry with the given tag, when that entry is
/// present with the short kind and at least one value.
pub open spec fn spec_short_value(t: Seq<u8>, le: bool, ifd: int, tag: int) -> Option<u16> {
    match spec_find_entry(t, le, ifd, tag) {
        Option::Some(e) => if spec_entry_kind(t, le, e) == 3 && spec_entry_count(t, le, e) >= 1 {
            Option::Some(rd16(t, le, e + 8) as u16)
        } else {
            Option::None
        },
        Option::None => Option::None,
    }
}

/// Reads the 16-bit value of the entry with the given tag.
fn short_value(t: &Vec<u8>, le: bool, ifd: usize, tag: u16) -> (r: Option<u16>)
    ensures
        r == spec_short_value(t@, le, ifd as int, tag as int),
{
    match find_entry(t, le, ifd, tag) {
        Option::Some(e) => {
            if read_u16(t, le, e + 2) == 3 && read_u32(t, le, e + 4) >= 1 {
                Option::Some(read_u16(t, le, e + 8))
            } else {
                Option::None
            }
        },
        Option::None => Option::None,
    }
}

/// The 32-bit value of the entry with the given tag, when that entry is
/// present with the long kind and exactly one value; this is how a
/// directory points at a sub-directory.
pub open spec fn spec_long_value(t: Seq<u8>, le: bool, ifd: int, tag: int) -> Option<u32> {
    match spec_find_entry(t, le, ifd, tag) {
        Option::Some(e) => if spec_entry_kind(t, le, e) == 4 && spec_entry_count(t, le, e) == 1 {
            Option::Some(rd32(t, le, e + 8) as u32)
        } else {
            Option::None
        },
        Option::None => Option::None,
    }
}

/// Reads the 32-bit value of the entry with the given tag.
fn long_value(t: &Vec<u8>, le: bool, ifd: usize, tag: u16) -> (r: Option<u32>)
    ensures
        r == spec_long_value(t@, le, ifd as int, tag as int),
{
    match find_entry(t, le, ifd, tag) {
        Option::Some(e) => {
            if read_u16(t, le, e + 2) == 4 && read_u32(t, le, e + 4) == 1 {
                Option::Some(read_u32(t, le, e + 8))
            } else {
                Option::None
            }
        },
        Option::None => Option::None,
    }
}

/// True of byte sequences that lie entirely below 0x80.
pub open spec fn all_ascii(s: Seq<u8>) -> bool {
    forall|i: int| 0 <= i < s.len() ==> s[i] < 128
}

/// Copies `count` bytes from `start` as a string, provided every byte is
/// ASCII.
fn read_text(t: &Vec<u8>, start: usize, count: usize) -> (r: Option<String>)
    requires
        start + count <= t.len(),
    ensures
        ({
            let raw = t@.subrange(start as int, start as int + count as int);
            match r {
                Option::Some(s) => all_ascii(raw) && s@ == ascii_chars(raw),
                Option::None => !all_ascii(raw),
            }
        }),
{
    let ghost raw = t@.subrange(start as int, start as int + count as int);
    let mut v: Vec<u8> = Vec::new();
    let mut k: usize = 0;
    proof {
        assert(v@ =~= raw.take(0));
    }
    while k < count
        invariant
            k <= count,
            start + count <= t.len(),
            raw == t@.subrange(start as int, start as int + count as int),
            v@ == raw.take(k as int),
            forall|j: int| 0 <= j < k ==> raw[j] < 128,
        decreases count - k,
    {
        let b = t[start + k];
        if b >= 128 {
            assert(raw[k as int] == b);
            return Option::None;
        }
        v.push(b);
        proof {
            assert(v@ =~= raw.take(k as int + 1));
        }
        k += 1;
    }
    proof {
        assert(v@ =~= raw);
    }
    Option::Some(ascii_to_string(v))
}

/// The text of the entry with the given tag, when that entry is present
/// with the text kind, lies within bounds, and holds only ASCII bytes; a
/// single trailing NUL terminator is not part of the text.
pub open spec fn spec_text_value(t: Seq<u8>, le: bool, ifd: int, tag: int) -> Option<Seq<char>> {
    match spec_find_entry(t, le, ifd, tag) {
        Option::Some(e) => {
            let c = spec_entry_count(t, le, e);
            if spec_entry_kind(t, le, e) == 2 && c >= 1 {
                let d = if c <= 4 {
                    e + 8
                } else {
                    rd32(t, le, e + 8)
                };
                if d + c <= t.len() {
                    let raw = t.subrange(d, d + c);
                    let text = if raw[c - 1] == 0 {
                        raw.take(c - 1)
                    } else {
                        raw
                    };
                    if all_ascii(text) {
                        Option::Some(ascii_chars(text))
                    } else {
                        Option::None
                    }
                } else {
                    Option::None
                }
            } else {
                Option::None
            }
        },
        Option::None => Option::None,
    }
}

/// Reads the text of the entry with the given tag.
fn text_value(t: &Vec<u8>, le: bool, ifd: usize, tag: u16) -> (r: Option<String>)
    ensures
        match r {
            Option::Some(s) => spec_text_value(t@, le, ifd as int, tag as int) == Option::Some(s@),
            Option::None => spec_text_value(t@, le, ifd as int, tag as int) is None,
        },
{
    match find_entry(t, le, ifd, tag) {
        Option::Some(e) => {
            let c32 = read_u32(t, le, e + 4);
            if read_u16(t, le, e + 2) == 2 && c32 >= 1 {
                let c = c32 as usize;
                let d: usize = if c <= 4 {
                    e + 8
                } else {
                    read_u32(t, le, e + 8) as usize
                };
                if d <= t.len() && t.len() - d >= c {
                    let ghost raw = t@.subrange(d as int, d as int + c as int);
                    if t[d + c - 1] == 0 {
                        proof {
                            assert(raw[c as int - 1] == 0);
                            assert(raw.take(c as int - 1) =~= t@.subrange(
                                d as int,
                                d as int + c as int - 1,
                            ));
                        }
                        read_text(t, d, c - 1)
                    } else {
                        proof {
                            assert(raw[c as int - 1] != 0);
                            assert(raw.take(c as int) =~= raw);
                        }
                        read_text(t, d, c)
                    }
                } else {
                    Option::None
                }
            } else {
                Option::None
            }
        },
        Option::None => Option::None,
    }
}

/// The text of a photographer's comment entry: kind 7, an eight-byte
/// character-set header, then the comment bytes, accepted when they are
/// ASCII.
pub open spec fn spec_comment_value(t: Seq<u8>, le: bool, ifd: int, tag: int) -> Option<Seq<char>> {
    match spec_find_entry(t, le, ifd, tag) {
        Option::Some(e) => {
            let c = spec_entry_count(t, le, e);
            if spec_entry_kind(t, le, e) == 7 && c >= 9 {
                let d = rd32(t, le, e + 8);
                if d + c <= t.len() {
                    let body = t.subrange(d + 8, d + c);
                    if all_ascii(body) {
                        Option::Some(ascii_chars(body))
                    } else {
                        Option::None
                    }
                } else {
                    Option::None
                }
            } else {
                Option::None
            }
        },
        Option::None => Option::None,
    }
}

/// Reads the text of a photographer's comment entry.
fn comment_value(t: &Vec<u8>, le: bool, ifd: usize, tag: u16) -> (r: Option<String>)
    ensures
        match r {
            Option::Some(s) => spec_comment_value(t@, le, ifd as int, tag as int) == Option::Some(
                s@,
            ),
            Option::None => spec_comment_value(t@, le, ifd as int, tag as int) is None,
        },
{
    match find_entry(t, le, ifd, tag) {
        Option::Some(e) => {
            let c32 = read_u32(t, le, e + 4);
            if read_u16(t, le, e + 2) == 7 && c32 >= 9 {
                let c = c32 as usize;
                let d = read_u32(t, le, e + 8) as usize;
                if d <= t.len() && t.len() - d >= c {
                    proof {
                        assert(t@.subrange(d as int + 8, d as int + c as int) =~= t@.subrange(
                            d as int + 8,
                            (d as int + 8) + (c as int - 8),
                        ));
                    }
                    read_text(t, d + 8, c - 8)
                } else {
                    Option::None
                }
            } else {
                Option::None
            }
        },
        Option::None => Option::None,
    }
}

/// The unreduced ratio at offset `d`: a 32-bit numerator then a 32-bit
/// denominator.
pub open spec fn spec_ratio_at(t: Seq<u8>, le: bool, d: int) -> Rational {
    Rational { numerator: rd32(t, le, d) as u32, denominator: rd32(t, le, d + 4) as u32 }
}

/// The single ratio value of the entry with the given tag, when that
/// entry is present with the ratio kind and its value lies within bounds.
pub open spec fn spec_rational_value(t: Seq<u8>, le: bool, ifd: int, tag: int) -> Option<Rational> {
    match spec_find_entry(t, le, ifd, tag) {
        Option::Some(e) => if spec_entry_kind(t, le, e) == 5 && spec_entry_count(t, le, e) >= 1 {
            let d = rd32(t, le, e + 8);
            if d + 8 <= t.len() {
                Option::Some(spec_ratio_at(t, le, d))
            } else {
                Option::None
            }
        } else {
            Option::None
        },
        Option::None => Option::None,
    }
}

/// Reads the single ratio value of the entry with the given tag.
fn rational_value(t: &Vec<u8>, le: bool, ifd: usize, tag: u16) -> (r: Option<Rational>)
    ensures
        r == spec_rational_value(t@, le, ifd as int, tag as int),
{
    match find_entry(t, le, ifd, tag) {
        Option::Some(e) => {
            if read_u16(t, le, e + 2) == 5 && read_u32(t, le, e + 4) >= 1 {
                let d = read_u32(t, le, e + 8) as usize;
                if d <= t.len() && t.len() - d >= 8 {
                    Option::Some(
                        Rational {
                            numerator: read_u32(t, le, d),
                            denominator: read_u32(t, le, d + 4),
                        },
                    )
                } else {
                    Option::None
                }
            } else {
                Option::None
            }
        },
        Option::None => Option::None,
    }
}

/// The three ratio values (degrees, minutes, seconds) of the entry with
/// the given tag, when that entry is present with the ratio kind, three
/// values, all within bounds.
pub open spec fn spec_dms_value(t: Seq<u8>, le: bool, ifd: int, tag: int) -> Option<
    (Rational, Rational, Rational),
> {
    match spec_find_entry(t, le, ifd, tag) {
        Option::Some(e) => if spec_entry_kind(t, le, e) == 5 && spec_entry_count(t, le, e) == 3 {
            let d = rd32(t, le, e + 8);
            if d + 24 <= t.len() {
                Option::Some(
                    (spec_ratio_at(t, le, d), spec_ratio_at(t, le, d + 8), spec_ratio_at(
                        t,
                        le,
                        d + 16,
                    )),
                )
            } else {
                Option::None
            }
        } else {
            Option::None
        },
        Option::None => Option::None,
    }
}

/// Reads the degrees-minutes-seconds triple of the entry with the given
/// tag.
fn dms_value(t: &Vec<u8>, le: bool, ifd: usize, tag: u16) -> (r: Option<
    (Rational, Rational, Rational),
>)
    ensures
        r == spec_dms_value(t@, le, ifd as int, tag as int),
{
    match find_entry(t, le, ifd, tag) {
        Option::Some(e) => {
            if read_u16(t, le, e + 2) == 5 && read_u32(t, le, e + 4) == 3 {
                let d = read_u32(t, le, e + 8) as usize;
                if d <= t.len() && t.len() - d >= 24 {
                    let first = Rational {
                        numerator: read_u32(t, le, d),
                        denominator: read_u32(t, le, d + 4),
                    };
                    let second = Rational {
                        numerator: read_u32(t, le, d + 8),
                        denominator: read_u32(t, le, d + 12),
                    };
                    let third = Rational {
                        numerator: read_u32(t, le, d + 16),
                        denominator: read_u32(t, le, d + 20),
                    };
                    Option::Some((first, second, third))
                } else {
                    Option::None
                }
            } else {
                Option::None
            }
        },
        Option::None => Option::None,
    }
}

/// A degrees-minutes-seconds triple as exact decimal degrees: the value
/// `d + m/60 + s/3600` held as one ratio over the common denominator
/// `3600 * dd * md * sd`; `None` when any denominator is zero.
pub open spec fn spec_gps_decimal(neg: bool, dms: (Rational, Rational, Rational)) -> Option<
    GpsCoordinate,
> {
    let dn = dms.0.numerator as int;
    let dd = dms.0.denominator as int;
    let mn = dms.1.numerator as int;
    let md = dms.1.denominator as int;
    let sn = dms.2.numerator as int;
    let sd = dms.2.denominator as int;
    if dd == 0 || md == 0 || sd == 0 {
        Option::None
    } else {
        Option::Some(
            GpsCoordinate {
                negative: neg,
                numerator: (3600 * md * sd * dn + 60 * dd * sd * mn + dd * md * sn) as u128,
                denominator: (3600 * dd * md * sd) as u128,
            },
        )
    }
}

/// Bounds for the decimal-degrees arithmetic: with 32-bit components both
/// the combined numerator and the common denominator fit far below the
/// 128-bit limit.
proof fn lemma_gps_terms_fit(x: int, y: int, z: int, k: int)
    requires
        0 <= x < 0x100000000,
        0 <= y < 0x100000000,
        0 <= z < 0x100000000,
        0 <= k <= 3600,
    ensures
        0 <= k * x < 0x100000000000,
        0 <= k * x * y < 0x10000000000000000000,
        0 <= k * x * y * z < 0x10000000000000000000000000000,
{
    lemma_mul_upper_bound(k, 3600, x, 0xffffffff);
    lemma_mul_upper_bound(k * x, 0xfffffffffff, y, 0xffffffff);
    lemma_mul_upper_bound(k * x * y, 0xfffffffffffffffffff, z, 0xffffffff);
    assert(k * x >= 0 && k * x * y >= 0 && k * x * y * z >= 0) by (nonlinear_arith)
        requires
            0 <= k && 0 <= x && 0 <= y && 0 <= z,
    ;
}

/// Converts a degrees-minutes-seconds triple to exact decimal degrees.
fn gps_decimal(neg: bool, dms: (Rational, Rational, Rational)) -> (r: Option<GpsCoordinate>)
    ensures
        r == spec_gps_decimal(neg, dms),
{
    let dn = dms.0.numerator as u128;
    let dd = dms.0.denominator as u128;
    let mn = dms.1.numerator as u128;
    let md = dms.1.denominator as u128;
    let sn = dms.2.numerator as u128;
    let sd = dms.2.denominator as u128;
    if dd == 0 || md == 0 || sd == 0 {
        Option::None
    } else {
        proof {
            lemma_gps_terms_fit(md as int, sd as int, dn as int, 3600);
            lemma_gps_terms_fit(dd as int, sd as int, mn as int, 60);
            lemma_gps_terms_fit(dd as int, md as int, sn as int, 1);
            lemma_gps_terms_fit(dd as int, md as int, sd as int, 3600);
        }
        let numerator = 3600 * md * sd * dn + 60 * dd * sd * mn + dd * md * sn;
        let denominator = 3600 * dd * md * sd;
        Option::Some(GpsCoordinate { negative: neg, numerator, denominator })
    }
}

/// True when a GPS reference text names the negative hemisphere: its
/// first character is the given one (`S` for latitude, `W` for
/// longitude).
pub open spec fn spec_ref_negative(r: Option<Seq<char>>, hemisphere: char) -> bool {
    match r {
        Option::Some(s) => s.len() >= 1 && s[0] == hemisphere,
        Option::None => false,
    }
}

/// One GPS coordinate out of a GPS directory: the reference entry gives
/// the sign, the triple entry the magnitude.
pub open spec fn spec_gps_coordinate(
    t: Seq<u8>,
    le: bool,
    gps_ifd: int,
    ref_tag: int,
    dms_tag: int,
    hemisphere: char,
) -> Option<GpsCoordinate> {
    match spec_dms_value(t, le, gps_ifd, dms_tag) {
        Option::Some(dms) => spec_gps_decimal(
            spec_ref_negative(spec_text_value(t, le, gps_ifd, ref_tag), hemisphere),
            dms,
        ),
        Option::None => Option::None,
    }
}

/// Reads one GPS coordinate out of a GPS directory.
fn gps_coordinate(
    t: &Vec<u8>,
    le: bool,
    gps_ifd: usize,
    ref_tag: u16,
    dms_tag: u16,
    hemisphere: char,
) -> (r: Option<GpsCoordinate>)
    ensures
        r == spec_gps_coordinate(t@, le, gps_ifd as int, ref_tag as int, dms_tag as int, hemisphere),
{
    match dms_value(t, le, gps_ifd, dms_tag) {
        Option::Some(dms) => {
            let reference = text_value(t, le, gps_ifd, ref_tag);
            let neg = match reference {
                Option::Some(s) => {
                    if s.as_str().unicode_len() >= 1 {
                        s.as_str().get_char(0) == hemisphere
                    } else {
                        false
                    }
                },
                Option::None => false,
            };
            gps_decimal(neg, dms)
        },
        Option::None => Option::None,
    }
}

/// Everything the parser extracts from a TIFF block, or `None` when the
/// header itself is malformed.  Each field degrades to absent on its own:
/// a missing entry, an entry of the wrong kind, an out-of-bounds value or
/// non-ASCII text drops that field and nothing else.
pub open spec fn spec_parse_exif(t: Seq<u8>) -> Option<SpecExifData> {
    match spec_tiff_byte_order(t) {
        Option::None => Option::None,
        Option::Some(le) => {
            let ifd0 = rd32(t, le, 4);
            let camera_ifd = spec_long_value(t, le, ifd0, 0x8769);
            let gps_ifd = spec_long_value(t, le, ifd0, 0x8825);
            Option::Some(
                SpecExifData {
                    orientation: spec_short_value(t, le, ifd0, 0x0112),
                    gps_latitude: match gps_ifd {
                        Option::Some(g) => spec_gps_coordinate(t, le, g as int, 0x0001, 0x0002, 'S'),
                        Option::None => Option::None,
                    },
                    gps_longitude: match gps_ifd {
                        Option::Some(g) => spec_gps_coordinate(t, le, g as int, 0x0003, 0x0004, 'W'),
                        Option::None => Option::None,
                    },
                    make: spec_text_value(t, le, ifd0, 0x010f),
                    model: spec_text_value(t, le, ifd0, 0x0110),
                    software: spec_text_value(t, le, ifd0, 0x0131),
                    user_comment: match camera_ifd {
                        Option::Some(x) => spec_comment_value(t, le, x as int, 0x9286),
                        Option::None => Option::None,
                    },
                    camera_owner: match camera_ifd {
                        Option::Some(x) => spec_text_value(t, le, x as int, 0xa430),
                        Option::None => Option::None,
                    },
                    exposure_time: match camera_ifd {
                        Option::Some(x) => spec_rational_value(t, le, x as int, 0x829a),
                        Option::None => Option::None,
                    },
                    f_number: match camera_ifd {
                        Option::Some(x) => spec_rational_value(t, le, x as int, 0x829d),
                        Option::None => Option::None,
                    },
                    focal_length: match camera_ifd {
                        Option::Some(x) => spec_rational_value(t, le, x as int, 0x920a),
                        Option::None => Option::None,
                    },
                    iso: match camera_ifd {
                        Option::Some(x) => spec_short_value(t, le, x as int, 0x8827),
                        Option::None => Option::None,
                    },
                },
            )
        },
    }
}

/// Parses a TIFF block into EXIF data.
pub fn parse_exif(t: &Vec<u8>) -> (r: Option<ExifData>)
    ensures
        match r {
            Option::Some(e) => spec_parse_exif(t@) == Option::Some(e@),
            Option::None => spec_parse_exif(t@) is None,
        },
{
    match tiff_byte_order(t) {
        Option::None => Option::None,
        Option::Some(le) => {
            let ifd0 = read_u32(t, le, 4) as usize;
            let camera_ifd = long_value(t, le, ifd0, 0x8769);
            let gps_ifd = long_value(t, le, ifd0, 0x8825);
            let data = ExifData {
                orientation: short_value(t, le, ifd0, 0x0112),
                gps_latitude: match gps_ifd {
                    Option::Some(g) => gps_coordinate(t, le, g as usize, 0x0001, 0x0002, 'S'),
                    Option::None => Option::None,
                },
                gps_longitude: match gps_ifd {
                    Option::Some(g) => gps_coordinate(t, le, g as usize, 0x0003, 0x0004, 'W'),
                    Option::None => Option::None,
                },
                make: text_value(t, le, ifd0, 0x010f),
                model: text_value(t, le, ifd0, 0x0110),
                software: text_value(t, le, ifd0, 0x0131),
                user_comment: match camera_ifd {
                    Option::Some(x) => comment_value(t, le, x as usize, 0x9286),
                    Option::None => Option::None,
                },
                camera_owner: match camera_ifd {
                    Option::Some(x) => text_value(t, le, x as usize, 0xa430),
                    Option::None => Option::None,
                },
                exposure_time: match camera_ifd {
                    Option::Some(x) => rational_value(t, le, x as usize, 0x829a),
                    Option::None => Option::None,
                },
                f_number: match camera_ifd {
                    Option::Some(x) => rational_value(t, le, x as usize, 0x829d),
                    Option::None => Option::None,
                },
                focal_length: match camera_ifd {
                    Option::Some(x) => rational_value(t, le, x as usize, 0x920a),
                    Option::None => Option::None,
                },
                iso: match camera_ifd {
                    Option::Some(x) => short_value(t, le, x as usize, 0x8827),
                    Option::None => Option::None,
                },
            };
            Option::Some(data)
        },
    }
}

} // verus!
