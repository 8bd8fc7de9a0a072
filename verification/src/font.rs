//! Choosing the interface font: the default face of a family, and the
//! family to fall back to when the chosen one does not suit the language.

use crate::text::{str_eq, trim, trimmed};
use vstd::prelude::*;
use vstd::string::StrSliceExecFns;

verus! {

/// `c` in lower case when it is an ASCII capital letter.
pub open spec fn ascii_lower(c: char) -> char {
    if 'A' <= c <= 'Z' {
        ((c as u8) + 32) as u8 as char
    } else {
        c
    }
}

/// `s` in ASCII lower case with its spaces removed.
pub open spec fn squeeze(s: Seq<char>) -> Seq<char>
    decreases s.len(),
{
    if s.len() == 0 {
        seq![]
    } else {
        let rest = squeeze(s.drop_last());
        if s.last() == ' ' {
            rest
        } else {
            rest.push(ascii_lower(s.last()))
        }
    }
}

/// The comparable form of a style name: trimmed, spaces removed, ASCII
/// lower case.
pub open spec fn style_token(style: Seq<char>) -> Seq<char> {
    squeeze(trimmed(style))
}

/// Whether a face with this style (and this normalised style name) is a
/// family's regular face.
pub open spec fn is_regular_style(style: Seq<char>, normalized: Seq<char>) -> bool {
    let t = style_token(style);
    ||| t == "regular"@
    ||| t == "normal"@
    ||| t == "book"@
    ||| t == "roman"@
    ||| t == "plain"@
    ||| normalized == "Regular"@
}

fn style_token_exec(style: &str) -> (r: Vec<char>)
    ensures
        r@ == style_token(style@),
{
    let t = trim(style);
    let n = t.unicode_len();
    let mut out: Vec<char> = Vec::new();
    let mut i: usize = 0;
    while i < n
        invariant
            n == t@.len(),
            0 <= i <= n,
            out@ == squeeze(t@.take(i as int)),
        decreases n - i,
    {
        let c = t.get_char(i);
        assert(t@.take(i + 1).drop_last() =~= t@.take(i as int));
        assert(t@.take(i + 1).last() == c);
        if c != ' ' {
            let lowered = if 'A' <= c && c <= 'Z' { ((c as u8) + 32) as char } else { c };
            out.push(lowered);
        }
        i = i + 1;
    }
    assert(t@.take(n as int) =~= t@);
    out
}

fn chars_equal(v: &Vec<char>, s: &str) -> (r: bool)
    ensures
        r == (v@ == s@),
{
    let n = s.unicode_len();
    if v.len() != n {
        return false;
    }
    let mut i: usize = 0;
    while i < n
        invariant
            n == s@.len(),
            n == v@.len(),
            0 <= i <= n,
            forall|j: int| 0 <= j < i ==> v@[j] == s@[j],
        decreases n - i,
    {
        if v[i] != s.get_char(i) {
            return false;
        }
        i = i + 1;
    }
    assert(v@ =~= s@);
    true
}

/// Whether a face is a family's regular face; `normalized` is the style
/// name as the catalog of fonts normalises it.
pub fn is_regular_face(style: &str, normalized: &str) -> (r: bool)
    ensures
        r == is_regular_style(style@, normalized@),
{
    let token = style_token_exec(style);
    chars_equal(&token, "regular") || chars_equal(&token, "normal") || chars_equal(&token, "book")
        || chars_equal(&token, "roman") || chars_equal(&token, "plain") || str_eq(normalized, "Regular")
}

/// One face of a font family: its style name and its normalised style name.
pub struct FontFace {
    pub style: String,
    pub normalized: String,
}

/// A font family: its key and its faces.
pub struct FontFamily {
    pub key: String,
    pub faces: Vec<FontFace>,
}

/// Whether face `i` is the face `family` starts with when it is picked:
/// its first regular face, or its first face when it has no regular face.
pub open spec fn is_default_face(family: FontFamily, i: int) -> bool {
    let faces = family.faces@;
    &&& 0 <= i < faces.len()
    &&& is_regular_style(faces[i].style@, faces[i].normalized@) ==> forall|j: int|
        0 <= j < i ==> !is_regular_style(faces[j].style@, faces[j].normalized@)
    &&& !is_regular_style(faces[i].style@, faces[i].normalized@) ==> i == 0 && forall|j: int|
        0 <= j < faces.len() ==> !is_regular_style(faces[j].style@, faces[j].normalized@)
}

/// A style names a regular face exactly when its comparable form (trimmed,
/// spaces removed, ASCII lower case) is one of the words regular, normal,
/// book, roman and plain, or its normalised name is `Regular`. Every other
/// style (bold, medium, light, italic, ...) is not regular.
pub proof fn law_regular_styles_are_the_five_words(style: Seq<char>, normalized: Seq<char>)
    ensures
        is_regular_style(style, normalized) <==> ({
            let t = style_token(style);
            ||| t =~= seq!['r', 'e', 'g', 'u', 'l', 'a', 'r']
            ||| t =~= seq!['n', 'o', 'r', 'm', 'a', 'l']
            ||| t =~= seq!['b', 'o', 'o', 'k']
            ||| t =~= seq!['r', 'o', 'm', 'a', 'n']
            ||| t =~= seq!['p', 'l', 'a', 'i', 'n']
            ||| normalized =~= seq!['R', 'e', 'g', 'u', 'l', 'a', 'r']
        }),
{
    reveal_strlit("regular");
    reveal_strlit("normal");
    reveal_strlit("book");
    reveal_strlit("roman");
    reveal_strlit("plain");
    reveal_strlit("Regular");
    assert("regular"@ =~= seq!['r', 'e', 'g', 'u', 'l', 'a', 'r']);
    assert("normal"@ =~= seq!['n', 'o', 'r', 'm', 'a', 'l']);
    assert("book"@ =~= seq!['b', 'o', 'o', 'k']);
    assert("roman"@ =~= seq!['r', 'o', 'm', 'a', 'n']);
    assert("plain"@ =~= seq!['p', 'l', 'a', 'i', 'n']);
    assert("Regular"@ =~= seq!['R', 'e', 'g', 'u', 'l', 'a', 'r']);
}

/// Whether a face's style is one of the words regular, normal, book, roman
/// and plain, or its normalised name is `Regular`.
pub open spec fn named_regular(face: FontFace) -> bool {
    let t = style_token(face.style@);
    ||| t =~= seq!['r', 'e', 'g', 'u', 'l', 'a', 'r']
    ||| t =~= seq!['n', 'o', 'r', 'm', 'a', 'l']
    ||| t =~= seq!['b', 'o', 'o', 'k']
    ||| t =~= seq!['r', 'o', 'm', 'a', 'n']
    ||| t =~= seq!['p', 'l', 'a', 'i', 'n']
    ||| face.normalized@ =~= seq!['R', 'e', 'g', 'u', 'l', 'a', 'r']
}

/// The default face, stated over the five words: it is the first face named
/// regular (see `named_regular`); with no such face it is the first face.
pub proof fn law_default_face_is_the_first_regular_word(family: FontFamily, i: int)
    requires
        is_default_face(family, i),
    ensures
        0 <= i < family.faces@.len(),
        named_regular(family.faces@[i]) ==> forall|j: int| 0 <= j < i ==> !named_regular(#[trigger] family.faces@[j]),
        !named_regular(family.faces@[i]) ==> i == 0 && forall|j: int|
            0 <= j < family.faces@.len() ==> !named_regular(#[trigger] family.faces@[j]),
{
    let faces = family.faces@;
    assert forall|k: int| 0 <= k < faces.len() implies is_regular_style(faces[k].style@, faces[k].normalized@)
        == named_regular(#[trigger] faces[k]) by {
        law_regular_styles_are_the_five_words(faces[k].style@, faces[k].normalized@);
    }
}

/// A family has at most one default face.
pub proof fn law_default_face_is_unique(family: FontFamily, i: int, j: int)
    requires
        is_default_face(family, i),
        is_default_face(family, j),
    ensures
        i == j,
{
    let faces = family.faces@;
    if is_regular_style(faces[i].style@, faces[i].normalized@) && is_regular_style(faces[j].style@, faces[j].normalized@) {
        assert(!(i < j) && !(j < i));
    }
}

/// The face a family starts with when it is picked: its first regular
/// face, else its first face.
pub fn preferred_default_face(family: &FontFamily) -> (r: Option<usize>)
    ensures
        match r {
            Some(i) => is_default_face(*family, i as int),
            None => family.faces@.len() == 0,
        },
{
    let mut i: usize = 0;
    while i < family.faces.len()
        invariant
            0 <= i <= family.faces@.len(),
            forall|j: int|
                0 <= j < i ==> !is_regular_style(family.faces@[j].style@, family.faces@[j].normalized@),
        decreases family.faces@.len() - i,
    {
        if is_regular_face(family.faces[i].style.as_str(), family.faces[i].normalized.as_str()) {
            return Some(i);
        }
        i = i + 1;
    }
    if family.faces.len() > 0 {
        Some(0)
    } else {
        None
    }
}

/// The family and face to switch the interface font to.
#[derive(Clone, Copy, Debug, PartialEq, Eq, Structural)]
pub struct FontChoice {
    pub family: usize,
    pub face: Option<usize>,
}

/// The first family whose key is `key`.
pub open spec fn family_index(families: Seq<FontFamily>, key: Seq<char>, i: int) -> bool {
    &&& 0 <= i < families.len()
    &&& families[i].key@ == key
    &&& forall|j: int| 0 <= j < i ==> families[j].key@ != key
}

/// Whether `family` offers a face of style `style`.
pub open spec fn offers_style(family: FontFamily, style: Seq<char>) -> bool {
    exists|k: int| 0 <= k < family.faces@.len() && (#[trigger] family.faces@[k]).style@ == style
}

fn find_family(families: &Vec<FontFamily>, key: &str) -> (r: Option<usize>)
    ensures
        r matches Some(i) ==> family_index(families@, key@, i as int),
        r is None ==> forall|j: int| 0 <= j < families@.len() ==> families@[j].key@ != key@,
{
    let mut i: usize = 0;
    while i < families.len()
        invariant
            0 <= i <= families@.len(),
            forall|j: int| 0 <= j < i ==> families@[j].key@ != key@,
        decreases families@.len() - i,
    {
        if str_eq(families[i].key.as_str(), key) {
            return Some(i);
        }
        i = i + 1;
    }
    None
}

fn has_style(family: &FontFamily, style: &str) -> (r: bool)
    ensures
        r == offers_style(*family, style@),
{
    let mut k: usize = 0;
    while k < family.faces.len()
        invariant
            0 <= k <= family.faces@.len(),
            forall|j: int| 0 <= j < k ==> (#[trigger] family.faces@[j]).style@ != style@,
        decreases family.faces@.len() - k,
    {
        if str_eq(family.faces[k].style.as_str(), style) {
            assert(family.faces@[k as int].style@ == style@);
            return true;
        }
        k = k + 1;
    }
    false
}

/// Keeps the interface font usable for the language: when the language did
/// not change and the chosen family and style are offered, nothing changes
/// (`None`); otherwise the chosen family (or, when it is not offered, the
/// first family) is picked with its default face. With no family offered
/// nothing changes either.
pub fn font_for_locale(
    families: &Vec<FontFamily>,
    current_family: &str,
    current_style: &str,
    language_changed: bool,
) -> (r: Option<FontChoice>)
    ensures
        ({
            let current = choose|i: int| family_index(families@, current_family@, i);
            let known = exists|i: int| family_index(families@, current_family@, i);
            if !language_changed && known && offers_style(families@[current], current_style@) {
                r is None
            } else if known {
                r matches Some(c) && c.family == current
            } else if families@.len() > 0 {
                r matches Some(c) && c.family == 0
            } else {
                r is None
            }
        }),
        match r {
            Some(c) => c.family < families@.len() && match c.face {
                Some(f) => is_default_face(families@[c.family as int], f as int),
                None => families@[c.family as int].faces@.len() == 0,
            },
            None => true,
        },
{
    let found = find_family(families, current_family);
    proof {
        if let Some(i) = found {
            assert(family_index(families@, current_family@, i as int));
            let c = choose|c: int| family_index(families@, current_family@, c);
            assert(c == i as int) by {
                if c < i {
                    assert(families@[c].key@ != current_family@);
                } else if c > i {
                    assert(families@[i as int].key@ != current_family@);
                }
            }
        }
    }
    let style_ok = match found {
        Some(i) => has_style(&families[i], current_style),
        None => false,
    };
    if !language_changed && found.is_some() && style_ok {
        return None;
    }
    let family = match found {
        Some(i) => i,
        None => {
            if families.len() == 0 {
                return None;
            }
            0
        },
    };
    let face = preferred_default_face(&families[family]);
    Some(FontChoice { family, face })
}

/// Whether the interface font must be configured again: the font's
/// identifier and size (as the bits of its `f32`) differ from those it was
/// last configured with. Remembers the new pair when they differ.
pub fn font_signature_changed(last: &mut Option<(String, u32)>, font_id: &String, size_bits: u32) -> (changed: bool)
    ensures
        changed == !(match *old(last) {
            Some((id, bits)) => id@ == font_id@ && bits == size_bits,
            None => false,
        }),
        changed ==> (match *final(last) {
            Some((id, bits)) => id@ == font_id@ && bits == size_bits,
            None => false,
        }),
        !changed ==> *final(last) == *old(last),
{
    let same = match last {
        Some((id, bits)) => str_eq(id.as_str(), font_id.as_str()) && *bits == size_bits,
        None => false,
    };
    if !same {
        *last = Some((font_id.clone(), size_bits));
    }
    !same
}

} // verus!
