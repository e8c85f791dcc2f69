//! Small verified helpers for comparing and assembling strings.

use vstd::prelude::*;

verus! {

/// Whether a string equals a literal, character for character.
pub fn str_eq(s: &String, lit: &str) -> (b: bool)
    ensures
        b == (s@ == lit@),
{
    let l: String = lit.to_owned();
    *s == l
}

/// Whether any entry of v equals the literal.
pub fn contains_str(v: &Vec<String>, lit: &str) -> (b: bool)
    ensures
        b == v.deep_view().contains(lit@),
{
    let mut i: usize = 0;
    while i < v.len()
        invariant
            i <= v.len(),
            forall|k: int| 0 <= k < i ==> v.deep_view()[k] != lit@,
        decreases v.len() - i,
    {
        if str_eq(&v[i], lit) {
            assert(v.deep_view()[i as int] == lit@);
            return true;
        }
        i += 1;
    }
    assert(forall|k: int| 0 <= k < v.deep_view().len() ==> v.deep_view()[k] != lit@);
    false
}

} // verus!
