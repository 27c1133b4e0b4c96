//! ASCII case-insensitive comparison of names, as the native schema lookup
//! performs it: ASCII letters are compared without regard to case, every
//! other character exactly.

use vstd::prelude::*;
use vstd::string::StrSliceExecFns;

verus! {

/// The code point of `c` with an ASCII upper-case letter folded to lower case.
pub open spec fn lower_code(c: char) -> int {
    if 65 <= c as int && c as int <= 90 {
        c as int + 32
    } else {
        c as int
    }
}

/// Two names match when they have the same length and their characters agree
/// after ASCII case folding.
pub open spec fn name_matches(a: Seq<char>, b: Seq<char>) -> bool {
    a.len() == b.len() && forall|k: int| 0 <= k < a.len() ==> lower_code(a[k]) == lower_code(b[k])
}

fn fold_code(c: char) -> (r: u32)
    ensures
        r == lower_code(c),
{
    let x = c as u32;
    if 65 <= x && x <= 90 {
        x + 32
    } else {
        x
    }
}

/// Compare two strings ASCII case-insensitively.
pub fn str_eq_ignore_ascii_case(a: &str, b: &str) -> (r: bool)
    ensures
        r == name_matches(a@, b@),
{
    let alen = a.unicode_len();
    let blen = b.unicode_len();
    if alen != blen {
        return false;
    }
    let mut i: usize = 0;
    while i < alen
        invariant
            alen == a@.len(),
            blen == b@.len(),
            alen == blen,
            i <= alen,
            forall|k: int| 0 <= k < i ==> lower_code(a@[k]) == lower_code(b@[k]),
        decreases alen - i,
    {
        let ca = a.get_char(i);
        let cb = b.get_char(i);
        if fold_code(ca) != fold_code(cb) {
            return false;
        }
        i += 1;
    }
    true
}

/// Law: name matching is an equivalence relation. It is reflexive and
/// symmetric on any names, and transitive across three.
pub proof fn lemma_name_matches_equivalence(a: Seq<char>, b: Seq<char>, c: Seq<char>)
    ensures
        name_matches(a, a),
        name_matches(a, b) == name_matches(b, a),
        name_matches(a, b) && name_matches(b, c) ==> name_matches(a, c),
{
}

} // verus!
