//! Keys and fallbacks for texts that packages contribute to the catalog.

use crate::text::{concat, str_eq};
use vstd::prelude::*;
use vstd::string::StrSliceExecFns;

verus! {

/// The catalog key of `field` of package item `id`: `<id>.<field>`.
pub fn catalog_key(id: &str, field: &str) -> (key: String)
    ensures
        key@ == id@ + seq!['.'] + field@,
{
    proof {
        reveal_strlit(".");
    }
    let with_dot = concat(id, ".");
    let mut key = with_dot;
    vstd::string::StringExecFns::append(&mut key, field);
    key
}

/// Whether `s` holds the character `c`.
pub fn contains_char(s: &str, c: char) -> (r: bool)
    ensures
        r == s@.contains(c),
{
    let n = s.unicode_len();
    let mut i: usize = 0;
    while i < n
        invariant
            n == s@.len(),
            0 <= i <= n,
            forall|j: int| 0 <= j < i ==> s@[j] != c,
        decreases n - i,
    {
        if s.get_char(i) == c {
            return true;
        }
        i = i + 1;
    }
    false
}

/// The text shown when the catalog has no translation for `key`: a
/// fallback that merely repeats the field name or looks like a message id
/// (it holds a `.`) is replaced by the full key.
pub open spec fn spec_catalog_fallback(key: Seq<char>, field: Seq<char>, fallback: Seq<char>) -> Seq<char> {
    if fallback == field || fallback.contains('.') {
        key
    } else {
        fallback
    }
}

/// The fallback to hand to the catalog together with `key`.
pub fn catalog_fallback(key: &str, field: &str, fallback: &str) -> (r: String)
    ensures
        r@ == spec_catalog_fallback(key@, field@, fallback@),
{
    if str_eq(fallback, field) || contains_char(fallback, '.') {
        key.to_owned()
    } else {
        fallback.to_owned()
    }
}

} // verus!
