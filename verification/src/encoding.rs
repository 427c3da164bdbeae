//! Rendering of byte sequences into the URL- and filename-safe alphabet.
//!
//! Identifiers are the unpadded base64 encoding of a digest, using `-` and
//! `_` in place of `+` and `/`, so that the token can stand verbatim as a
//! storage-path component and as a URL path segment.

use vstd::prelude::*;

verus! {

/// The characters of an ASCII byte sequence, one char per byte.
pub open spec fn ascii_chars(s: Seq<u8>) -> Seq<char> {
    Seq::new(s.len(), |i: int| s[i] as char)
}

/// True of the bytes that may appear in an identifier: ASCII letters,
/// digits, `-` and `_`.
pub open spec fn is_safe_byte(b: u8) -> bool {
    (97 <= b <= 122) || (65 <= b <= 90) || (48 <= b <= 57) || b == 45 || b == 95
}

/// The base64 alphabet in its URL- and filename-safe variant: values 0
/// through 61 map to `A`..`Z`, `a`..`z`, `0`..`9`; 62 maps to `-`, 63 to `_`.
pub open spec fn b64_byte(v: int) -> u8 {
    if 0 <= v < 26 {
        (65 + v) as u8
    } else if 26 <= v < 52 {
        (97 + (v - 26)) as u8
    } else if 52 <= v < 62 {
        (48 + (v - 52)) as u8
    } else if v == 62 {
        45u8
    } else {
        95u8
    }
}

/// The four output bytes of one full three-byte input group.
pub open spec fn b64_group(b1: int, b2: int, b3: int) -> Seq<u8> {
    seq![
        b64_byte(b1 / 4),
        b64_byte((b1 % 4) * 16 + b2 / 16),
        b64_byte((b2 % 16) * 4 + b3 / 64),
        b64_byte(b3 % 64),
    ]
}

/// Unpadded URL-safe base64 of a byte sequence: full groups of three bytes
/// yield four output bytes each; a trailing group of one or two bytes yields
/// two or three output bytes and no padding.
pub open spec fn spec_base64url(data: Seq<u8>) -> Seq<u8>
    decreases data.len(),
{
    if data.len() >= 3 {
        b64_group(data[0] as int, data[1] as int, data[2] as int) + spec_base64url(data.skip(3))
    } else if data.len() == 2 {
        seq![
            b64_byte(data[0] as int / 4),
            b64_byte((data[0] as int % 4) * 16 + data[1] as int / 16),
            b64_byte((data[1] as int % 16) * 4),
        ]
    } else if data.len() == 1 {
        seq![b64_byte(data[0] as int / 4), b64_byte((data[0] as int % 4) * 16)]
    } else {
        Seq::empty()
    }
}

/// Every byte of a base64url rendering lies in the safe set (and so, in
/// particular, below 0x80).
pub proof fn lemma_base64url_safe(data: Seq<u8>)
    ensures
        forall|i: int| 0 <= i < spec_base64url(data).len() ==> is_safe_byte(#[trigger] spec_base64url(data)[i]),
    decreases data.len(),
{
    if data.len() >= 3 {
        lemma_base64url_safe(data.skip(3));
        assert forall|i: int| 0 <= i < spec_base64url(data).len() implies is_safe_byte(
            #[trigger] spec_base64url(data)[i],
        ) by {
            let head = b64_group(data[0] as int, data[1] as int, data[2] as int);
            let tail = spec_base64url(data.skip(3));
            if i < head.len() {
                assert(spec_base64url(data)[i] == head[i]);
            } else {
                assert(spec_base64url(data)[i] == tail[i - head.len()]);
            }
        }
    }
}

/// The exact output length of the rendering: four bytes per full group,
/// two more for a trailing byte, three more for a trailing pair, and
/// never a padding byte.
pub proof fn lemma_base64url_len(data: Seq<u8>)
    ensures
        spec_base64url(data).len() == 4 * (data.len() / 3) + (if data.len() % 3 == 0 {
            0int
        } else {
            data.len() % 3 + 1int
        }),
    decreases data.len(),
{
    if data.len() >= 3 {
        lemma_base64url_len(data.skip(3));
        assert(data.skip(3).len() == data.len() - 3);
        assert((data.len() - 3) / 3 == data.len() / 3 - 1);
        assert((data.len() - 3) % 3 == data.len() % 3);
    }
}

/// Relies on String::from_utf8: bytes below 0x80 are valid UTF-8, and such a
/// sequence decodes to one char per byte with the same code points.
#[verifier::external_body]
pub fn ascii_to_string(v: Vec<u8>) -> (r: String)
    requires
        forall|i: int| 0 <= i < v@.len() ==> v@[i] < 128,
    ensures
        r@ == ascii_chars(v@),
{
    String::from_utf8(v).unwrap_or_default()
}

/// One base64url alphabet byte for a six-bit value.
fn base64_byte(v: u8) -> (r: u8)
    requires
        v < 64,
    ensures
        r == b64_byte(v as int),
{
    if v < 26 {
        65 + v
    } else if v < 52 {
        97 + (v - 26)
    } else if v < 62 {
        48 + (v - 52)
    } else if v == 62 {
        45
    } else {
        95
    }
}

/// Renders bytes in unpadded URL-safe base64.  The output draws only on
/// ASCII letters, digits, `-` and `_`, so it needs no percent-encoding and
/// is safe as a file name.
pub fn base64_encode(data: Vec<u8>) -> (r: String)
    ensures
        r@ == ascii_chars(spec_base64url(data@)),
{
    let mut out: Vec<u8> = Vec::new();
    let mut i: usize = 0;

    proof {
        assert(data@.skip(0) =~= data@);
        assert(out@ + spec_base64url(data@.skip(0)) =~= spec_base64url(data@));
    }

    while data.len() - i > 2
        invariant
            i <= data.len(),
            out@ + spec_base64url(data@.skip(i as int)) == spec_base64url(data@),
        decreases data.len() - i,
    {
        let ghost pre = out@;
        let b1 = data[i];
        let b2 = data[i + 1];
        let b3 = data[i + 2];

        out.push(base64_byte(b1 / 4));
        out.push(base64_byte((b1 % 4) * 16 + b2 / 16));
        out.push(base64_byte((b2 % 16) * 4 + b3 / 64));
        out.push(base64_byte(b3 % 64));

        proof {
            let d = data@;
            let s = d.skip(i as int);
            assert(s.len() >= 3);
            assert(s[0] == b1 && s[1] == b2 && s[2] == b3);
            assert(s.skip(3) =~= d.skip(i as int + 3));
            assert(spec_base64url(s) == b64_group(b1 as int, b2 as int, b3 as int)
                + spec_base64url(d.skip(i as int + 3)));
            assert(out@ =~= pre + b64_group(b1 as int, b2 as int, b3 as int));
            assert(out@ + spec_base64url(d.skip(i as int + 3)) =~= spec_base64url(d));
        }

        i += 3;
    }

    if data.len() - i == 1 {
        let ghost pre = out@;
        let b1 = data[i];
        out.push(base64_byte(b1 / 4));
        out.push(base64_byte((b1 % 4) * 16));
        proof {
            let s = data@.skip(i as int);
            assert(s.len() == 1 && s[0] == b1);
            assert(spec_base64url(s) =~= seq![
                b64_byte(b1 as int / 4),
                b64_byte((b1 as int % 4) * 16),
            ]);
            assert(out@ =~= pre + spec_base64url(s));
            assert(out@ =~= spec_base64url(data@));
        }
    } else if data.len() - i == 2 {
        let ghost pre = out@;
        let b1 = data[i];
        let b2 = data[i + 1];
        out.push(base64_byte(b1 / 4));
        out.push(base64_byte((b1 % 4) * 16 + b2 / 16));
        out.push(base64_byte((b2 % 16) * 4));
        proof {
            let s = data@.skip(i as int);
            assert(s.len() == 2 && s[0] == b1 && s[1] == b2);
            assert(spec_base64url(s) =~= seq![
                b64_byte(b1 as int / 4),
                b64_byte((b1 as int % 4) * 16 + b2 as int / 16),
                b64_byte((b2 as int % 16) * 4),
            ]);
            assert(out@ =~= pre + spec_base64url(s));
            assert(out@ =~= spec_base64url(data@));
        }
    } else {
        proof {
            let s = data@.skip(i as int);
            assert(s.len() == 0);
            assert(spec_base64url(s) =~= Seq::empty());
            assert(out@ =~= spec_base64url(data@));
        }
    }

    proof {
        lemma_base64url_safe(data@);
    }
    ascii_to_string(out)
}

} // verus!
