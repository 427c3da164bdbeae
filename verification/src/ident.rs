//! Identifiers and their mapping to storage paths.
//!
//! An identifier is only ever turned into a path after it has been checked
//! against the safe alphabet; the check is what keeps a hostile identifier
//! (`../etc/passwd`, `a/b`) from ever reaching the filesystem.

use vstd::prelude::*;
use vstd::string::StrSliceExecFns;
use vstd::string::StringExecFns;

verus! {

/// True of the characters permitted in an identifier: ASCII letters,
/// digits, `-` and `_`.  Nothing in this set needs percent-encoding in a
/// URL, and none of it can form a path separator or a parent-directory
/// reference.
pub open spec fn is_safe_char(c: char) -> bool {
    (97 <= c as u32 <= 122) || (65 <= c as u32 <= 90) || (48 <= c as u32 <= 57) || c as u32 == 45
        || c as u32 == 95
}

/// True of a string drawn entirely from the safe alphabet.
pub open spec fn is_safe_identifier(s: Seq<char>) -> bool {
    forall|i: int| 0 <= i < s.len() ==> is_safe_char(s[i])
}

/// Checks a candidate identifier against the safe alphabet.
pub fn check_identifier(s: &str) -> (r: bool)
    ensures
        r == is_safe_identifier(s@),
{
    let n = s.unicode_len();
    let mut i: usize = 0;
    while i < n
        invariant
            i <= n,
            n == s@.len(),
            forall|j: int| 0 <= j < i ==> is_safe_char(s@[j]),
        decreases n - i,
    {
        let c = s.get_char(i);
        let v = c as u32;
        if !((97 <= v && v <= 122) || (65 <= v && v <= 90) || (48 <= v && v <= 57) || v == 45
            || v == 95) {
            assert(!is_safe_char(s@[i as int]));
            return false;
        }
        i += 1;
    }
    true
}

/// Two safe strings concatenate to a safe string.
pub proof fn lemma_safe_concat(a: Seq<char>, b: Seq<char>)
    requires
        is_safe_identifier(a),
        is_safe_identifier(b),
    ensures
        is_safe_identifier(a + b),
{
    assert forall|i: int| 0 <= i < (a + b).len() implies is_safe_char((a + b)[i]) by {
        if i < a.len() {
            assert((a + b)[i] == a[i]);
        } else {
            assert((a + b)[i] == b[i - a.len()]);
        }
    }
}

/// The thumbnail suffix itself is drawn from the safe alphabet, so a
/// thumbnail key is as safe as the identifier it derives from.
pub proof fn lemma_thumbnail_suffix_safe()
    ensures
        is_safe_identifier(spec_thumbnail_suffix()),
{
    reveal_strlit("_thumbnail");
    let s = spec_thumbnail_suffix();
    assert forall|j: int| 0 <= j < s.len() implies is_safe_char(s[j]) by {
        assert(s[0] == '_' && s[1] == 't' && s[2] == 'h' && s[3] == 'u' && s[4] == 'm' && s[5]
            == 'b' && s[6] == 'n' && s[7] == 'a' && s[8] == 'i' && s[9] == 'l');
        assert(j == 0 || j == 1 || j == 2 || j == 3 || j == 4 || j == 5 || j == 6 || j == 7 || j
            == 8 || j == 9);
    }
}

/// The store's root directory, as a path prefix.
pub open spec fn spec_store_root() -> Seq<char> {
    "./var/lib/atchat/"@
}

/// The suffix under which a derived thumbnail is stored beside its source
/// object.
pub open spec fn spec_thumbnail_suffix() -> Seq<char> {
    "_thumbnail"@
}

/// The storage path of the object named by `hash`: the store root followed
/// by the identifier itself, with no escaping.
pub open spec fn spec_filepath(hash: Seq<char>) -> Seq<char> {
    spec_store_root() + hash
}

/// The storage path of the thumbnail derived from the object named by
/// `hash`.
pub open spec fn spec_thumbnail_filepath(hash: Seq<char>) -> Seq<char> {
    spec_store_root() + hash + spec_thumbnail_suffix()
}

/// Maps an identifier to the path its object is stored under.
pub fn filepath(hash: String) -> (r: String)
    ensures
        r@ == spec_filepath(hash@),
{
    let root = String::from_str("./var/lib/atchat/");
    root.concat(hash.as_str())
}

/// Maps an identifier to the path its derived thumbnail is stored under.
pub fn thumbnail_filepath(hash: String) -> (r: String)
    ensures
        r@ == spec_thumbnail_filepath(hash@),
{
    let path = filepath(hash);
    path.concat("_thumbnail")
}

} // verus!
