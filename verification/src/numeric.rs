//! Decimal rendering of unsigned integers, used when a length or a
//! dimension is written into a wire message.

use vstd::prelude::*;
use crate::encoding::ascii_chars;
use crate::encoding::ascii_to_string;

verus! {

/// The ASCII decimal digits of `n`, most significant first, with no sign
/// and no leading zero (except for `n == 0`, which is the single digit `0`).
pub open spec fn spec_decimal(n: nat) -> Seq<u8>
    decreases n,
{
    if n < 10 {
        seq![(48 + n) as u8]
    } else {
        spec_decimal(n / 10).push((48 + n % 10) as u8)
    }
}

/// Decimal digits are ASCII digit bytes.
pub proof fn lemma_decimal_digits(n: nat)
    ensures
        forall|i: int| 0 <= i < spec_decimal(n).len() ==> 48 <= #[trigger] spec_decimal(n)[i] <= 57,
    decreases n,
{
    if n >= 10 {
        lemma_decimal_digits(n / 10);
        assert forall|i: int| 0 <= i < spec_decimal(n).len() implies 48
            <= #[trigger] spec_decimal(n)[i] <= 57 by {
            let prefix = spec_decimal(n / 10);
            if i < prefix.len() {
                assert(spec_decimal(n)[i] == prefix[i]);
            }
        }
    }
}

/// Appends the decimal digits of `n` to `out`.
fn push_decimal(n: u64, out: &mut Vec<u8>)
    ensures
        final(out)@ == old(out)@ + spec_decimal(n as nat),
    decreases n,
{
    if n < 10 {
        out.push(48 + n as u8);
        proof {
            assert(out@ =~= old(out)@ + spec_decimal(n as nat));
        }
    } else {
        push_decimal(n / 10, out);
        out.push(48 + (n % 10) as u8);
        proof {
            assert(out@ =~= old(out)@ + spec_decimal(n as nat));
        }
    }
}

/// The decimal rendering of `n` as a string.
pub fn decimal_string(n: u64) -> (r: String)
    ensures
        r@ == ascii_chars(spec_decimal(n as nat)),
{
    let mut out: Vec<u8> = Vec::new();
    push_decimal(n, &mut out);
    proof {
        lemma_decimal_digits(n as nat);
    }
    ascii_to_string(out)
}

} // verus!
