//! String slices compared, trimmed and shortened, decided on their characters.

use vstd::prelude::*;
use vstd::string::StrSliceExecFns;
use vstd::string::StringExecFns;

verus! {

broadcast use vstd::utf8::encode_utf8_decode_utf8;

/// Two strings are equal exactly when their UTF-8 encodings are.
pub proof fn lemma_encoding_injective(a: Seq<char>, b: Seq<char>)
    ensures
        (vstd::utf8::encode_utf8(a) == vstd::utf8::encode_utf8(b)) == (a == b),
{
    if vstd::utf8::encode_utf8(a) == vstd::utf8::encode_utf8(b) {
        assert(vstd::utf8::decode_utf8(vstd::utf8::encode_utf8(a)) == a);
        assert(vstd::utf8::decode_utf8(vstd::utf8::encode_utf8(b)) == b);
    }
}

/// Whether two byte slices hold the same bytes.
pub fn bytes_eq(a: &[u8], b: &[u8]) -> (r: bool)
    ensures
        r == (a@ == b@),
{
    if a.len() != b.len() {
        return false;
    }
    let mut i: usize = 0;
    while i < a.len()
        invariant
            a@.len() == b@.len(),
            0 <= i <= a@.len(),
            forall|j: int| 0 <= j < i ==> a@[j] == b@[j],
        decreases a@.len() - i,
    {
        if a[i] != b[i] {
            return false;
        }
        i = i + 1;
    }
    assert(a@ =~= b@);
    true
}

/// Whether two string slices hold the same characters.
pub fn str_eq(a: &str, b: &str) -> (r: bool)
    ensures
        r == (a@ == b@),
{
    let r = bytes_eq(a.as_bytes(), b.as_bytes());
    proof {
        lemma_encoding_injective(a@, b@);
    }
    r
}

/// Whether `s` begins with `prefix`.
pub open spec fn has_prefix(s: Seq<char>, prefix: Seq<char>) -> bool {
    prefix.len() <= s.len() && s.subrange(0, prefix.len() as int) == prefix
}

/// Whether `s` begins with `prefix`.
pub fn starts_with(s: &str, prefix: &str) -> (r: bool)
    ensures
        r == has_prefix(s@, prefix@),
{
    let n = s.unicode_len();
    let m = prefix.unicode_len();
    if m > n {
        return false;
    }
    let mut i: usize = 0;
    while i < m
        invariant
            n == s@.len(),
            m == prefix@.len(),
            m <= n,
            0 <= i <= m,
            forall|j: int| 0 <= j < i ==> s@[j] == prefix@[j],
        decreases m - i,
    {
        if s.get_char(i) != prefix.get_char(i) {
            assert(s@.subrange(0, m as int)[i as int] != prefix@[i as int]);
            return false;
        }
        i = i + 1;
    }
    assert(s@.subrange(0, m as int) =~= prefix@);
    true
}

/// `s` without `prefix`, when it begins with it.
pub fn strip_prefix<'a>(s: &'a str, prefix: &str) -> (r: Option<&'a str>)
    ensures
        has_prefix(s@, prefix@) ==> r is Some && r->0@ == s@.subrange(prefix@.len() as int, s@.len() as int),
        !has_prefix(s@, prefix@) ==> r is None,
{
    if starts_with(s, prefix) {
        let n = s.unicode_len();
        let m = prefix.unicode_len();
        Some(s.substring_char(m, n))
    } else {
        None
    }
}

/// `prefix` followed by `rest`, as a new string.
pub fn concat(prefix: &str, rest: &str) -> (r: String)
    ensures
        r@ == prefix@ + rest@,
{
    let mut r = String::from_str(prefix);
    r.append(rest);
    r
}

/// Whether two optional strings are both absent or hold the same text.
pub open spec fn same_text(a: Option<String>, b: Option<String>) -> bool {
    match (a, b) {
        (Some(x), Some(y)) => x@ == y@,
        (None, None) => true,
        _ => false,
    }
}

/// Whether two optional strings are both absent or hold the same text.
pub fn option_text_eq(a: &Option<String>, b: &Option<String>) -> (r: bool)
    ensures
        r == same_text(*a, *b),
{
    match (a, b) {
        (Some(x), Some(y)) => str_eq(x.as_str(), y.as_str()),
        (None, None) => true,
        _ => false,
    }
}

/// Whether `c` has the Unicode `White_Space` property.
pub open spec fn is_white_space(c: char) -> bool {
    let u = c as u32;
    ||| 0x09 <= u <= 0x0d
    ||| u == 0x20
    ||| u == 0x85
    ||| u == 0xa0
    ||| u == 0x1680
    ||| 0x2000 <= u <= 0x200a
    ||| u == 0x2028
    ||| u == 0x2029
    ||| u == 0x202f
    ||| u == 0x205f
    ||| u == 0x3000
}

/// `s` without its leading white space.
pub open spec fn trim_start(s: Seq<char>) -> Seq<char>
    decreases s.len(),
{
    if s.len() > 0 && is_white_space(s[0]) {
        trim_start(s.drop_first())
    } else {
        s
    }
}

/// `s` without its trailing white space.
pub open spec fn trim_end(s: Seq<char>) -> Seq<char>
    decreases s.len(),
{
    if s.len() > 0 && is_white_space(s.last()) {
        trim_end(s.drop_last())
    } else {
        s
    }
}

/// `s` without its leading and trailing white space.
pub open spec fn trimmed(s: Seq<char>) -> Seq<char> {
    trim_end(trim_start(s))
}

/// Whether every character of `s` is white space.
pub open spec fn all_white_space(s: Seq<char>) -> bool {
    forall|i: int| 0 <= i < s.len() ==> is_white_space(#[trigger] s[i])
}

/// Trimming white space around a text that neither starts nor ends with
/// white space gives that text back.
pub proof fn lemma_trimmed_padded(pre: Seq<char>, body: Seq<char>, post: Seq<char>)
    requires
        all_white_space(pre),
        all_white_space(post),
        body.len() > 0,
        !is_white_space(body[0]),
        !is_white_space(body.last()),
    ensures
        trimmed(pre + body + post) == body,
    decreases pre.len() + post.len(),
{
    if pre.len() > 0 {
        assert((pre + body + post).drop_first() =~= pre.drop_first() + body + post);
        lemma_trimmed_padded(pre.drop_first(), body, post);
        assert(trim_start(pre + body + post) == trim_start(pre.drop_first() + body + post));
    } else if post.len() > 0 {
        assert(pre + body + post =~= body + post);
        lemma_trim_end_suffix(body, post);
        assert(trim_start(body + post) == body + post);
    } else {
        assert(pre + body + post =~= body);
        assert(trim_start(body) == body);
        assert(trim_end(body) == body);
    }
}

proof fn lemma_trim_end_suffix(body: Seq<char>, post: Seq<char>)
    requires
        all_white_space(post),
        body.len() > 0,
        !is_white_space(body.last()),
    ensures
        trim_end(body + post) == body,
    decreases post.len(),
{
    if post.len() > 0 {
        assert((body + post).drop_last() =~= body + post.drop_last());
        lemma_trim_end_suffix(body, post.drop_last());
    } else {
        assert(body + post =~= body);
    }
}

fn white_space_char(c: char) -> (r: bool)
    ensures
        r == is_white_space(c),
{
    let u = c as u32;
    (0x09 <= u && u <= 0x0d) || u == 0x20 || u == 0x85 || u == 0xa0 || u == 0x1680 || (0x2000 <= u && u
        <= 0x200a) || u == 0x2028 || u == 0x2029 || u == 0x202f || u == 0x205f || u == 0x3000
}

/// `s` without leading and trailing white space, as `str::trim` gives it:
/// white space is the Unicode `White_Space` property.
pub fn trim(s: &str) -> (r: &str)
    ensures
        r@ == trimmed(s@),
{
    let n = s.unicode_len();
    let mut i: usize = 0;
    assert(s@.subrange(0, n as int) =~= s@);
    while i < n && white_space_char(s.get_char(i))
        invariant
            0 <= i <= n,
            n == s@.len(),
            trim_start(s@) == trim_start(s@.subrange(i as int, n as int)),
        decreases n - i,
    {
        assert(s@.subrange(i as int, n as int).drop_first() =~= s@.subrange(i + 1, n as int));
        i = i + 1;
    }
    let mut j: usize = n;
    while j > i && white_space_char(s.get_char(j - 1))
        invariant
            i <= j <= n,
            n == s@.len(),
            trim_start(s@) == s@.subrange(i as int, n as int),
            trim_end(s@.subrange(i as int, n as int)) == trim_end(s@.subrange(i as int, j as int)),
        decreases j,
    {
        assert(s@.subrange(i as int, j as int).drop_last() =~= s@.subrange(i as int, j - 1));
        j = j - 1;
    }
    s.substring_char(i, j)
}

/// The ellipsis that ends a shortened text.
pub const ELLIPSIS: &'static str = "\u{2026}";

/// The number of leading characters kept when a text is shortened: the
/// longest run of prefixes, from the first character on, whose shortened
/// form fits (`fits[k]` tells whether the first `k + 1` characters and the
/// ellipsis fit).
pub open spec fn kept_prefix(fits: Seq<bool>) -> nat
    decreases fits.len(),
{
    if fits.len() == 0 || !fits[0] {
        0
    } else {
        1 + kept_prefix(fits.drop_first())
    }
}

/// A text shortened to the width available: the whole text when it fits,
/// and otherwise its longest fitting prefix followed by an ellipsis (the
/// ellipsis alone when not even one character fits). Whether a candidate
/// fits is measured by the caller in the interface's font.
pub fn shorten_to_fit(text: &str, whole_fits: bool, fits: &Vec<bool>) -> (r: String)
    requires
        fits@.len() == text@.len(),
    ensures
        whole_fits ==> r@ == text@,
        !whole_fits ==> r@ == text@.subrange(0, kept_prefix(fits@) as int) + ELLIPSIS@,
{
    if whole_fits {
        return String::from_str(text);
    }
    let mut k: usize = 0;
    assert(fits@.skip(0) =~= fits@);
    while k < fits.len() && fits[k]
        invariant
            0 <= k <= fits@.len(),
            kept_prefix(fits@) == k + kept_prefix(fits@.skip(k as int)),
        decreases fits@.len() - k,
    {
        assert(fits@.skip(k as int).drop_first() =~= fits@.skip(k + 1));
        k = k + 1;
    }
    assert(k < fits@.len() ==> fits@.skip(k as int)[0] == fits@[k as int]);
    concat(text.substring_char(0, k), ELLIPSIS)
}

} // verus!
