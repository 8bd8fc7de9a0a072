//! Hexadecimal colour values as typed in the HUD editor: `#RRGGBB` or
//! `RRGGBB`, surrounded by any white space.

use crate::text::{all_white_space, is_white_space, lemma_trimmed_padded, trim, trim_end, trim_start, trimmed};
use vstd::prelude::*;
use vstd::string::StringExecFns;

verus! {

broadcast use vstd::string::group_string_axioms;

/// The value of a hexadecimal digit, upper or lower case.
pub open spec fn hex_value(c: char) -> Option<int> {
    if '0' <= c <= '9' {
        Some(c as int - '0' as int)
    } else if 'a' <= c <= 'f' {
        Some(c as int - 'a' as int + 10)
    } else if 'A' <= c <= 'F' {
        Some(c as int - 'A' as int + 10)
    } else {
        None
    }
}

/// Reading two hexadecimal digits as a byte, the first the high digit.
pub open spec fn hex_byte(a: char, b: char) -> Option<u8> {
    match (hex_value(a), hex_value(b)) {
        (Some(x), Some(y)) => Some((16 * x + y) as u8),
        _ => None,
    }
}

/// The six characters of a colour value: the trimmed input without one
/// leading `#`.
pub open spec fn hex_body(s: Seq<char>) -> Seq<char> {
    let t = trimmed(s);
    if t.len() > 0 && t[0] == '#' {
        t.drop_first()
    } else {
        t
    }
}

/// The colour that `s` denotes: six hexadecimal digits after trimming and
/// dropping a leading `#`, read as three bytes.
pub open spec fn spec_parse_hex_color(s: Seq<char>) -> Option<(u8, u8, u8)> {
    let h = hex_body(s);
    if h.len() == 6 && vstd::utf8::is_ascii_chars(h) {
        match (hex_byte(h[0], h[1]), hex_byte(h[2], h[3]), hex_byte(h[4], h[5])) {
            (Some(r), Some(g), Some(b)) => Some((r, g, b)),
            _ => None,
        }
    } else {
        None
    }
}

fn hex_digit(b: u8) -> (r: Option<u8>)
    ensures
        match hex_value(b as char) {
            Some(v) => r == Some(v as u8),
            None => r is None,
        },
{
    if 48 <= b && b <= 57 {
        Some(b - 48)
    } else if 97 <= b && b <= 102 {
        Some(b - 87)
    } else if 65 <= b && b <= 70 {
        Some(b - 55)
    } else {
        None
    }
}

fn parse_hex_byte(a: u8, b: u8) -> (r: Option<u8>)
    ensures
        r == hex_byte(a as char, b as char),
{
    match (hex_digit(a), hex_digit(b)) {
        (Some(x), Some(y)) => Some(16 * x + y),
        _ => None,
    }
}

/// Parses a colour typed as `#RRGGBB` or `RRGGBB` (with white space around
/// it allowed); `None` unless the value is six hexadecimal digits.
pub fn parse_hex_color(value: &str) -> (r: Option<[u8; 3]>)
    ensures
        match spec_parse_hex_color(value@) {
            Some(c) => r is Some && r->0[0] == c.0 && r->0[1] == c.1 && r->0[2] == c.2,
            None => r is None,
        },
{
    let t = trim(value);
    let ghost h = hex_body(value@);
    if !t.is_ascii() {
        proof {
            if h.len() == 6 && vstd::utf8::is_ascii_chars(h) {
                assert forall|i: int| 0 <= i < t@.len() implies '\0' <= #[trigger] t@[i] <= '\u{7f}' by {
                    if t@.len() > 0 && t@[0] == '#' {
                        if i > 0 {
                            assert(t@[i] == h[i - 1]);
                        }
                    } else {
                        assert(t@[i] == h[i]);
                    }
                }
            }
        }
        return None;
    }
    let bytes = t.as_bytes();
    let len = bytes.len();
    proof {
        vstd::utf8::is_ascii_chars_encode_utf8(t@);
        vstd::utf8::is_ascii_chars_nat_bound(t@);
        assert forall|i: int| 0 <= i < t@.len() implies (#[trigger] bytes@[i]) as char == t@[i] by {
            assert(t@[i] as u8 == bytes@[i]);
        }
    }
    let start: usize = if len > 0 && bytes[0] == 35u8 { 1 } else { 0 };
    if len - start != 6 {
        return None;
    }
    let b0 = bytes[start];
    let b1 = bytes[start + 1];
    let b2 = bytes[start + 2];
    let b3 = bytes[start + 3];
    let b4 = bytes[start + 4];
    let b5 = bytes[start + 5];
    proof {
        assert(h.len() == 6);
        assert forall|i: int| 0 <= i < 6 implies (#[trigger] h[i]) == t@[start + i] by {}
        assert(b0 as char == h[0]);
        assert(b1 as char == h[1]);
        assert(b2 as char == h[2]);
        assert(b3 as char == h[3]);
        assert(b4 as char == h[4]);
        assert(b5 as char == h[5]);
    }
    let red = parse_hex_byte(b0, b1);
    let green = parse_hex_byte(b2, b3);
    let blue = parse_hex_byte(b4, b5);
    match (red, green, blue) {
        (Some(r), Some(g), Some(b)) => Some([r, g, b]),
        _ => None,
    }
}

/// The upper-case hexadecimal digit of `n`, for `n < 16`.
pub open spec fn hex_upper(n: int) -> char {
    if n < 10 {
        ('0' as int + n) as char
    } else {
        ('A' as int + n - 10) as char
    }
}

/// The canonical text of a colour: `#` and two upper-case hexadecimal
/// digits per channel.
pub open spec fn canonical_hex(c: (u8, u8, u8)) -> Seq<char> {
    seq![
        '#',
        hex_upper(c.0 as int / 16),
        hex_upper(c.0 as int % 16),
        hex_upper(c.1 as int / 16),
        hex_upper(c.1 as int % 16),
        hex_upper(c.2 as int / 16),
        hex_upper(c.2 as int % 16),
    ]
}

fn hex_digit_str(n: u8) -> (s: &'static str)
    requires
        n < 16,
    ensures
        s@ == seq![hex_upper(n as int)],
{
    match n {
        0 => {
            proof {
                reveal_strlit("0");
            }
            "0"
        }
        1 => {
            proof {
                reveal_strlit("1");
            }
            "1"
        }
        2 => {
            proof {
                reveal_strlit("2");
            }
            "2"
        }
        3 => {
            proof {
                reveal_strlit("3");
            }
            "3"
        }
        4 => {
            proof {
                reveal_strlit("4");
            }
            "4"
        }
        5 => {
            proof {
                reveal_strlit("5");
            }
            "5"
        }
        6 => {
            proof {
                reveal_strlit("6");
            }
            "6"
        }
        7 => {
            proof {
                reveal_strlit("7");
            }
            "7"
        }
        8 => {
            proof {
                reveal_strlit("8");
            }
            "8"
        }
        9 => {
            proof {
                reveal_strlit("9");
            }
            "9"
        }
        10 => {
            proof {
                reveal_strlit("A");
            }
            "A"
        }
        11 => {
            proof {
                reveal_strlit("B");
            }
            "B"
        }
        12 => {
            proof {
                reveal_strlit("C");
            }
            "C"
        }
        13 => {
            proof {
                reveal_strlit("D");
            }
            "D"
        }
        14 => {
            proof {
                reveal_strlit("E");
            }
            "E"
        }
        _ => {
            proof {
                reveal_strlit("F");
            }
            "F"
        }
    }
}

/// The canonical text of a colour, `#RRGGBB` in upper case.
pub fn format_hex_color(color: [u8; 3]) -> (s: String)
    ensures
        s@ == canonical_hex((color[0], color[1], color[2])),
{
    proof {
        reveal_strlit("#");
    }
    let mut s = String::from_str("#");
    s.append(hex_digit_str(color[0] / 16));
    s.append(hex_digit_str(color[0] % 16));
    s.append(hex_digit_str(color[1] / 16));
    s.append(hex_digit_str(color[1] % 16));
    s.append(hex_digit_str(color[2] / 16));
    s.append(hex_digit_str(color[2] % 16));
    assert(s@ =~= canonical_hex((color[0], color[1], color[2])));
    s
}

/// Reading back the canonical text of a colour gives the colour again.
pub proof fn law_canonical_hex_round_trips(c: (u8, u8, u8))
    ensures
        spec_parse_hex_color(canonical_hex(c)) == Some(c),
{
    let s = canonical_hex(c);
    assert(trim_start(s) == s);
    assert(trim_end(s) == s);
    let h = hex_body(s);
    assert(h =~= s.drop_first());
    assert(vstd::utf8::is_ascii_chars(h));
}

/// Whether `h` is six hexadecimal digits, in either case, spelling the
/// bytes of `c`.
pub open spec fn spells(h: Seq<char>, c: (u8, u8, u8)) -> bool {
    &&& h.len() == 6
    &&& hex_value(h[0]) == Some((c.0 / 16) as int) && hex_value(h[1]) == Some((c.0 % 16) as int)
    &&& hex_value(h[2]) == Some((c.1 / 16) as int) && hex_value(h[3]) == Some((c.1 % 16) as int)
    &&& hex_value(h[4]) == Some((c.2 / 16) as int) && hex_value(h[5]) == Some((c.2 % 16) as int)
}

/// Any text of a colour reads back as that colour: its six digits in upper
/// or lower case, with or without a leading `#`, and with any white space
/// around it.
pub proof fn law_hex_text_round_trips(c: (u8, u8, u8), pre: Seq<char>, hash: bool, h: Seq<char>, post: Seq<char>)
    requires
        spells(h, c),
        all_white_space(pre),
        all_white_space(post),
    ensures
        spec_parse_hex_color(pre + (if hash { seq!['#'] } else { seq![] }) + h + post) == Some(c),
{
    let body = (if hash { seq!['#'] } else { seq![] }) + h;
    assert(pre + (if hash { seq!['#'] } else { seq![] }) + h + post =~= pre + body + post);
    assert(body.last() == h[5]);
    assert(!is_white_space(h[5]));
    assert(body[0] == if hash { '#' } else { h[0] });
    assert(!is_white_space(h[0]));
    lemma_trimmed_padded(pre, body, post);
    assert(hex_body(pre + body + post) =~= h);
    assert(vstd::utf8::is_ascii_chars(h));
}

/// The outcome of one frame of the colour editor's text field.
pub struct HexInput {
    /// The colour after the frame.
    pub color: [u8; 3],
    /// The text to keep in the field.
    pub input: String,
    /// Whether the colour changed.
    pub changed: bool,
}

/// One frame of the colour editor's text field: an edit that parses
/// replaces the colour, and when the field loses focus holding text that
/// does not parse, the text is reset to the canonical text of the colour
/// the frame started with; in every other case the text is kept as typed.
pub fn hex_color_input(color: [u8; 3], input: String, text_changed: bool, lost_focus: bool) -> (r: HexInput)
    ensures
        ({
            let parsed = spec_parse_hex_color(input@);
            &&& text_changed ==> (parsed matches Some((red, green, blue)) ==> r.changed
                && r.color[0] == red && r.color[1] == green && r.color[2] == blue)
            &&& !(text_changed && parsed is Some) ==> !r.changed && r.color == color
            &&& lost_focus && parsed is None ==> r.input@ == canonical_hex((color[0], color[1], color[2]))
            &&& !(lost_focus && parsed is None) ==> r.input@ == input@
        }),
        lost_focus ==> spec_parse_hex_color(r.input@) is Some,
{
    let canonical = format_hex_color(color);
    let parsed = parse_hex_color(input.as_str());
    let mut new_color = color;
    let mut changed = false;
    if text_changed {
        if let Some(value) = parsed {
            new_color = value;
            changed = true;
        }
    }
    let new_input = if lost_focus && parsed.is_none() {
        canonical
    } else {
        input
    };
    proof {
        law_canonical_hex_round_trips((color[0], color[1], color[2]));
    }
    HexInput { color: new_color, input: new_input, changed }
}

/// The brightness by which text colours are compared: the sum of the
/// channels.
pub open spec fn channel_sum(c: [u8; 3]) -> int {
    c[0] + c[1] + c[2]
}

/// The colour a HUD's border and content take by default: the brightest of
/// its text colours (the last of equally bright ones), or white when it has
/// no text.
pub fn brightest_text_color(colors: &Vec<[u8; 3]>) -> (r: [u8; 3])
    ensures
        colors@.len() == 0 ==> r == [255u8, 255u8, 255u8],
        colors@.len() > 0 ==> exists|i: int|
            0 <= i < colors@.len() && r == colors@[i] && (forall|j: int|
                0 <= j < colors@.len() ==> channel_sum(#[trigger] colors@[j]) <= channel_sum(r)) && (
            forall|j: int| i < j < colors@.len() ==> channel_sum(#[trigger] colors@[j]) < channel_sum(r)),
{
    if colors.len() == 0 {
        return [255, 255, 255];
    }
    let mut best: usize = 0;
    let mut i: usize = 1;
    while i < colors.len()
        invariant
            1 <= i <= colors@.len(),
            best < i,
            forall|j: int| 0 <= j < i ==> channel_sum(#[trigger] colors@[j]) <= channel_sum(colors@[best as int]),
            forall|j: int| best < j < i ==> channel_sum(#[trigger] colors@[j]) < channel_sum(colors@[best as int]),
        decreases colors@.len() - i,
    {
        let c = colors[i];
        let b = colors[best];
        let sum: u32 = c[0] as u32 + c[1] as u32 + c[2] as u32;
        let best_sum: u32 = b[0] as u32 + b[1] as u32 + b[2] as u32;
        if sum >= best_sum {
            best = i;
        }
        i = i + 1;
    }
    colors[best]
}

} // verus!
