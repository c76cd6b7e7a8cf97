//! `#RRGGBB` colour parsing and the colour lists of the configuration.

use vstd::prelude::*;
use vstd::string::StringExecFns;

verus! {

/// Unicode `White_Space` characters, the set `char::is_whitespace` and
/// `str::trim` use.
pub open spec fn is_unicode_whitespace(c: char) -> bool {
    ||| ('\u{9}' <= c && c <= '\u{D}')
    ||| c == ' '
    ||| c == '\u{85}'
    ||| c == '\u{A0}'
    ||| c == '\u{1680}'
    ||| ('\u{2000}' <= c && c <= '\u{200A}')
    ||| c == '\u{2028}'
    ||| c == '\u{2029}'
    ||| c == '\u{202F}'
    ||| c == '\u{205F}'
    ||| c == '\u{3000}'
}

/// The text with leading whitespace removed.
pub open spec fn trim_start(s: Seq<char>) -> Seq<char>
    decreases s.len(),
{
    if s.len() > 0 && is_unicode_whitespace(s[0]) {
        trim_start(s.drop_first())
    } else {
        s
    }
}

/// The text with trailing whitespace removed.
pub open spec fn trim_end(s: Seq<char>) -> Seq<char>
    decreases s.len(),
{
    if s.len() > 0 && is_unicode_whitespace(s.last()) {
        trim_end(s.drop_last())
    } else {
        s
    }
}

/// The text with every leading `#` removed.
pub open spec fn strip_hashes(s: Seq<char>) -> Seq<char>
    decreases s.len(),
{
    if s.len() > 0 && s[0] == '#' {
        strip_hashes(s.drop_first())
    } else {
        s
    }
}

/// The digits a colour value is read from: the trimmed text without its
/// leading `#` characters.
pub open spec fn color_digits(s: Seq<char>) -> Seq<char> {
    strip_hashes(trim_end(trim_start(s)))
}

/// ASCII hexadecimal digit.
pub open spec fn is_hex_digit(c: char) -> bool {
    ||| ('0' <= c && c <= '9')
    ||| ('a' <= c && c <= 'f')
    ||| ('A' <= c && c <= 'F')
}

/// Value of a hexadecimal digit.
pub open spec fn hex_value(c: char) -> int {
    if '0' <= c && c <= '9' {
        c as int - '0' as int
    } else if 'a' <= c && c <= 'f' {
        c as int - 'a' as int + 10
    } else {
        c as int - 'A' as int + 10
    }
}

/// Byte written by the two digits at `i` and `i + 1`.
pub open spec fn hex_byte(d: Seq<char>, i: int) -> u8 {
    (hex_value(d[i]) * 16 + hex_value(d[i + 1])) as u8
}

/// Result of parsing `#RRGGBB` (or `RRGGBB`, surrounding whitespace allowed):
/// the red, green and blue bytes, or nothing when the digits are not exactly
/// six hexadecimal digits.
pub open spec fn spec_parse_hex_color(s: Seq<char>) -> Option<Seq<u8>> {
    let d = color_digits(s);
    if d.len() == 6 && (forall|i: int| 0 <= i < 6 ==> is_hex_digit(#[trigger] d[i])) {
        Some(seq![hex_byte(d, 0), hex_byte(d, 2), hex_byte(d, 4)])
    } else {
        None
    }
}

fn is_whitespace_char(c: char) -> (b: bool)
    ensures
        b == is_unicode_whitespace(c),
{
    ('\u{9}' <= c && c <= '\u{D}') || c == ' ' || c == '\u{85}' || c == '\u{A0}' || c == '\u{1680}'
        || ('\u{2000}' <= c && c <= '\u{200A}') || c == '\u{2028}' || c == '\u{2029}' || c
        == '\u{202F}' || c == '\u{205F}' || c == '\u{3000}'
}

fn hex_digit_value(c: char) -> (v: u8)
    requires
        is_hex_digit(c),
    ensures
        v as int == hex_value(c),
        v < 16,
{
    if '0' <= c && c <= '9' {
        (c as u32 - '0' as u32) as u8
    } else if 'a' <= c && c <= 'f' {
        (c as u32 - 'a' as u32 + 10) as u8
    } else {
        (c as u32 - 'A' as u32 + 10) as u8
    }
}

fn is_hex_char(c: char) -> (b: bool)
    ensures
        b == is_hex_digit(c),
{
    ('0' <= c && c <= '9') || ('a' <= c && c <= 'f') || ('A' <= c && c <= 'F')
}

/// The characters of `s`, in order.
pub(crate) fn chars_of(s: &str) -> (v: Vec<char>)
    ensures
        v@ == s@,
{
    broadcast use vstd::string::axiom_spec_iter;
    let mut v: Vec<char> = Vec::new();
    for c in it: s.chars()
        invariant
            v@ == it.seq().take(it.index() as int),
            it.seq() == s@,
    {
        assert(it.seq().take(it.index() + 1) =~= it.seq().take(it.index() as int).push(c));
        v.push(c);
    }
    assert(s@.take(s@.len() as int) =~= s@);
    v
}

/// Whether the characters `name` spell `text`.
pub(crate) fn spells(name: &Vec<char>, text: &str) -> (r: bool)
    ensures
        r == (name@ == text@),
{
    let t = chars_of(text);
    if name.len() != t.len() {
        return false;
    }
    let mut i: usize = 0;
    while i < name.len()
        invariant
            i <= name@.len(),
            name@.len() == t@.len(),
            t@ == text@,
            forall|j: int| 0 <= j < i ==> name@[j] == t@[j],
        decreases name@.len() - i,
    {
        if name[i] != t[i] {
            return false;
        }
        i = i + 1;
    }
    assert(name@ =~= t@);
    true
}

/// Bounds of `s` without its leading and trailing whitespace.
fn trimmed_bounds(chars: &Vec<char>) -> (r: (usize, usize))
    ensures
        r.0 <= r.1 <= chars@.len(),
        trim_end(trim_start(chars@)) == chars@.subrange(r.0 as int, r.1 as int),
{
    let len = chars.len();
    let ghost s = chars@;
    let mut start: usize = 0;
    assert(s.subrange(0, len as int) =~= s);
    while start < len && is_whitespace_char(chars[start])
        invariant
            start <= len,
            len == s.len(),
            chars@ == s,
            trim_start(s) == trim_start(s.subrange(start as int, len as int)),
        decreases len - start,
    {
        assert(s.subrange(start as int, len as int).drop_first() =~= s.subrange(
            start + 1,
            len as int,
        ));
        start = start + 1;
    }
    assert(trim_start(s) == s.subrange(start as int, len as int));
    let ghost t = s.subrange(start as int, len as int);
    let mut end: usize = len;
    while end > start && is_whitespace_char(chars[end - 1])
        invariant
            start <= end <= len,
            len == s.len(),
            chars@ == s,
            t == s.subrange(start as int, len as int),
            trim_end(t) == trim_end(s.subrange(start as int, end as int)),
        decreases end - start,
    {
        assert(s.subrange(start as int, end as int).drop_last() =~= s.subrange(
            start as int,
            end - 1,
        ));
        end = end - 1;
    }
    assert(trim_end(t) == s.subrange(start as int, end as int));
    (start, end)
}

/// First position in `[start, end)` after the leading `#` characters.
fn skip_hashes(chars: &Vec<char>, start: usize, end: usize) -> (first: usize)
    requires
        start <= end <= chars@.len(),
    ensures
        start <= first <= end,
        strip_hashes(chars@.subrange(start as int, end as int)) == chars@.subrange(
            first as int,
            end as int,
        ),
{
    let ghost s = chars@;
    let mut first: usize = start;
    while first < end && chars[first] == '#'
        invariant
            start <= first <= end <= s.len(),
            chars@ == s,
            strip_hashes(s.subrange(start as int, end as int)) == strip_hashes(
                s.subrange(first as int, end as int),
            ),
        decreases end - first,
    {
        assert(s.subrange(first as int, end as int).drop_first() =~= s.subrange(
            first + 1,
            end as int,
        ));
        first = first + 1;
    }
    first
}

/// Decodes six hexadecimal digits starting at `first`.
fn decode_digits(chars: &Vec<char>, first: usize) -> (rgb: Option<[u8; 3]>)
    requires
        first + 6 <= chars@.len(),
    ensures
        ({
            let d = chars@.subrange(first as int, first + 6);
            if forall|i: int| 0 <= i < 6 ==> is_hex_digit(#[trigger] d[i]) {
                rgb matches Some(v) && v@ == seq![hex_byte(d, 0), hex_byte(d, 2), hex_byte(d, 4)]
            } else {
                rgb is None
            }
        }),
{
    let ghost d = chars@.subrange(first as int, first + 6);
    let len = chars.len();
    let mut k: usize = 0;
    while k < 6
        invariant
            k <= 6,
            first + 6 <= chars@.len(),
            len == chars@.len(),
            d == chars@.subrange(first as int, first + 6),
            forall|i: int| 0 <= i < k ==> is_hex_digit(#[trigger] d[i]),
        decreases 6 - k,
    {
        assert(d[k as int] == chars@[first + k]);
        if !is_hex_char(chars[first + k]) {
            return None;
        }
        k = k + 1;
    }
    let mut rgb: [u8; 3] = [0, 0, 0];
    let mut b: usize = 0;
    while b < 3
        invariant
            b <= 3,
            first + 6 <= chars@.len(),
            len == chars@.len(),
            d == chars@.subrange(first as int, first + 6),
            forall|i: int| 0 <= i < 6 ==> is_hex_digit(#[trigger] d[i]),
            forall|j: int| 0 <= j < b ==> #[trigger] rgb@[j] == hex_byte(d, 2 * j),
        decreases 3 - b,
    {
        assert(d[2 * b as int] == chars@[first + 2 * b]);
        assert(d[2 * b + 1] == chars@[first + 2 * b + 1]);
        let hi = hex_digit_value(chars[first + 2 * b]);
        let lo = hex_digit_value(chars[first + 2 * b + 1]);
        rgb[b] = hi * 16 + lo;
        b = b + 1;
    }
    assert(rgb@ =~= seq![hex_byte(d, 0), hex_byte(d, 2), hex_byte(d, 4)]);
    Some(rgb)
}

/// Parses `#RRGGBB` (or `RRGGBB`) into `[r, g, b]`; surrounding whitespace
/// is ignored, anything else that is not six hex digits gives `None`.
pub fn parse_hex_color(value: &str) -> (rgb: Option<[u8; 3]>)
    ensures
        match spec_parse_hex_color(value@) {
            Some(c) => rgb matches Some(v) && v@ == c,
            None => rgb is None,
        },
{
    let chars = chars_of(value);
    let (start, end) = trimmed_bounds(&chars);
    let first = skip_hashes(&chars, start, end);
    let ghost d = chars@.subrange(first as int, end as int);
    assert(color_digits(value@) == d);
    if end - first != 6 {
        return None;
    }
    decode_digits(&chars, first)
}

} // verus!
verus! {

/// Parsing one `#`-prefixed literal of six hex digits.
proof fn lemma_parse_literal(s: Seq<char>, r: u8, g: u8, b: u8)
    requires
        s.len() == 7,
        s[0] == '#',
        forall|i: int| 1 <= i < 7 ==> is_hex_digit(#[trigger] s[i]),
        hex_byte(s, 1) == r,
        hex_byte(s, 3) == g,
        hex_byte(s, 5) == b,
    ensures
        spec_parse_hex_color(s) == Some(seq![r, g, b]),
{
    assert(!is_unicode_whitespace(s[0]));
    assert(trim_start(s) == s);
    assert(!is_unicode_whitespace(s.last()));
    assert(trim_end(s) == s);
    let d = s.drop_first();
    assert(!(d[0] == '#'));
    assert(strip_hashes(d) == d);
    assert(strip_hashes(s) == d);
    assert(color_digits(s) == d);
    assert forall|i: int| 0 <= i < 6 implies is_hex_digit(#[trigger] d[i]) by {
        assert(d[i] == s[i + 1]);
    }
    assert(hex_byte(d, 0) == hex_byte(s, 1));
    assert(hex_byte(d, 2) == hex_byte(s, 3));
    assert(hex_byte(d, 4) == hex_byte(s, 5));
}

/// Each colour of the built-in gradient parses, to the bytes its digits spell.
pub proof fn lemma_default_colors_parse()
    ensures
        spec_parse_hex_color("#F8AFDB"@) == Some(seq![0xF8u8, 0xAF, 0xDB]),
        spec_parse_hex_color("#F8A3C8"@) == Some(seq![0xF8u8, 0xA3, 0xC8]),
        spec_parse_hex_color("#87CEEB"@) == Some(seq![0x87u8, 0xCE, 0xEB]),
        spec_parse_hex_color("#D8BFDB"@) == Some(seq![0xD8u8, 0xBF, 0xDB]),
        spec_parse_hex_color("#00FFFF"@) == Some(seq![0x00u8, 0xFF, 0xFF]),
{
    reveal_strlit("#F8AFDB");
    lemma_parse_literal("#F8AFDB"@, 0xF8, 0xAF, 0xDB);
    reveal_strlit("#F8A3C8");
    lemma_parse_literal("#F8A3C8"@, 0xF8, 0xA3, 0xC8);
    reveal_strlit("#87CEEB");
    lemma_parse_literal("#87CEEB"@, 0x87, 0xCE, 0xEB);
    reveal_strlit("#D8BFDB");
    lemma_parse_literal("#D8BFDB"@, 0xD8, 0xBF, 0xDB);
    reveal_strlit("#00FFFF");
    lemma_parse_literal("#00FFFF"@, 0x00, 0xFF, 0xFF);
}

/// Upper-case hexadecimal digit of `v` (below 16).
pub open spec fn hex_digit_char(v: int) -> char {
    if v < 10 {
        ((v + '0' as int) as u32) as char
    } else {
        ((v - 10 + 'A' as int) as u32) as char
    }
}

/// `#RRGGBB` text of a colour, with upper-case digits.
pub open spec fn spec_format_hex_color(rgb: Seq<u8>) -> Seq<char> {
    seq![
        '#',
        hex_digit_char(rgb[0] as int / 16),
        hex_digit_char(rgb[0] as int % 16),
        hex_digit_char(rgb[1] as int / 16),
        hex_digit_char(rgb[1] as int % 16),
        hex_digit_char(rgb[2] as int / 16),
        hex_digit_char(rgb[2] as int % 16),
    ]
}

/// One upper-case hexadecimal digit as text.
fn hex_digit_text(v: u8) -> (t: &'static str)
    requires
        v < 16,
    ensures
        t@ == seq![hex_digit_char(v as int)],
{
    match v {
        0 => { proof { reveal_strlit("0"); } "0" },
        1 => { proof { reveal_strlit("1"); } "1" },
        2 => { proof { reveal_strlit("2"); } "2" },
        3 => { proof { reveal_strlit("3"); } "3" },
        4 => { proof { reveal_strlit("4"); } "4" },
        5 => { proof { reveal_strlit("5"); } "5" },
        6 => { proof { reveal_strlit("6"); } "6" },
        7 => { proof { reveal_strlit("7"); } "7" },
        8 => { proof { reveal_strlit("8"); } "8" },
        9 => { proof { reveal_strlit("9"); } "9" },
        10 => { proof { reveal_strlit("A"); } "A" },
        11 => { proof { reveal_strlit("B"); } "B" },
        12 => { proof { reveal_strlit("C"); } "C" },
        13 => { proof { reveal_strlit("D"); } "D" },
        14 => { proof { reveal_strlit("E"); } "E" },
        _ => { proof { reveal_strlit("F"); } "F" },
    }
}

/// Formats a colour as `#RRGGBB` with upper-case digits.
pub fn format_hex_color(rgb: [u8; 3]) -> (text: String)
    ensures
        text@ == spec_format_hex_color(rgb@),
{
    proof {
        reveal_strlit("#");
    }
    let mut text = String::from_str("#");
    let mut k: usize = 0;
    while k < 3
        invariant
            k <= 3,
            text@.len() == 1 + 2 * k,
            text@ == spec_format_hex_color(rgb@).take(1 + 2 * k),
        decreases 3 - k,
    {
        let byte = rgb[k];
        text.append(hex_digit_text(byte / 16));
        text.append(hex_digit_text(byte % 16));
        assert(text@ =~= spec_format_hex_color(rgb@).take(1 + 2 * (k + 1)));
        k = k + 1;
    }
    assert(spec_format_hex_color(rgb@).take(7) =~= spec_format_hex_color(rgb@));
    text
}

/// Two digits of a formatted byte read back as that byte.
proof fn lemma_digits_read_back(v: u8)
    ensures
        is_hex_digit(hex_digit_char(v as int / 16)),
        is_hex_digit(hex_digit_char(v as int % 16)),
        hex_value(hex_digit_char(v as int / 16)) * 16 + hex_value(hex_digit_char(v as int % 16)) == v,
{
    assert(v / 16 < 16);
    assert(v as int == (v / 16) * 16 + v % 16);
}

/// Formatting a colour and parsing the text gives the colour back.
pub proof fn law_format_then_parse(rgb: Seq<u8>)
    requires
        rgb.len() == 3,
    ensures
        spec_parse_hex_color(spec_format_hex_color(rgb)) == Some(rgb),
{
    let s = spec_format_hex_color(rgb);
    lemma_digits_read_back(rgb[0]);
    lemma_digits_read_back(rgb[1]);
    lemma_digits_read_back(rgb[2]);
    assert forall|i: int| 1 <= i < 7 implies is_hex_digit(#[trigger] s[i]) by {}
    lemma_parse_literal(s, rgb[0], rgb[1], rgb[2]);
    assert(seq![rgb[0], rgb[1], rgb[2]] =~= rgb);
}

/// Lower-case hexadecimal digit of `v` (below 16).
pub open spec fn lower_hex_digit_char(v: int) -> char {
    if v < 10 {
        ((v + '0' as int) as u32) as char
    } else {
        ((v - 10 + 'a' as int) as u32) as char
    }
}

/// `#rrggbb` text of a colour, with lower-case digits.
pub open spec fn spec_format_lower_hex_color(rgb: Seq<u8>) -> Seq<char> {
    seq![
        '#',
        lower_hex_digit_char(rgb[0] as int / 16),
        lower_hex_digit_char(rgb[0] as int % 16),
        lower_hex_digit_char(rgb[1] as int / 16),
        lower_hex_digit_char(rgb[1] as int % 16),
        lower_hex_digit_char(rgb[2] as int / 16),
        lower_hex_digit_char(rgb[2] as int % 16),
    ]
}

/// Two lower-case digits of a byte read back as that byte.
proof fn lemma_lower_digits_read_back(v: u8)
    ensures
        is_hex_digit(lower_hex_digit_char(v as int / 16)),
        is_hex_digit(lower_hex_digit_char(v as int % 16)),
        hex_value(lower_hex_digit_char(v as int / 16)) * 16 + hex_value(
            lower_hex_digit_char(v as int % 16),
        ) == v,
{
    assert(v / 16 < 16);
    assert(v as int == (v / 16) * 16 + v % 16);
}

/// Digits are read in either case: for every colour, the lower-case text
/// `#rrggbb` parses to that colour, just as the upper-case text does.
pub proof fn law_lower_case_digits_parse(rgb: Seq<u8>)
    requires
        rgb.len() == 3,
    ensures
        spec_parse_hex_color(spec_format_lower_hex_color(rgb)) == Some(rgb),
        spec_parse_hex_color(spec_format_lower_hex_color(rgb)) == spec_parse_hex_color(
            spec_format_hex_color(rgb),
        ),
{
    let s = spec_format_lower_hex_color(rgb);
    lemma_lower_digits_read_back(rgb[0]);
    lemma_lower_digits_read_back(rgb[1]);
    lemma_lower_digits_read_back(rgb[2]);
    assert forall|i: int| 1 <= i < 7 implies is_hex_digit(#[trigger] s[i]) by {}
    lemma_parse_literal(s, rgb[0], rgb[1], rgb[2]);
    assert(seq![rgb[0], rgb[1], rgb[2]] =~= rgb);
    law_format_then_parse(rgb);
}

/// The leading `#` is optional: for every colour, the digits alone
/// (`RRGGBB`, upper or lower case) parse to that colour too.
pub proof fn law_hash_is_optional(rgb: Seq<u8>)
    requires
        rgb.len() == 3,
    ensures
        spec_parse_hex_color(spec_format_hex_color(rgb).drop_first()) == Some(rgb),
        spec_parse_hex_color(spec_format_lower_hex_color(rgb).drop_first()) == Some(rgb),
{
    lemma_digits_read_back(rgb[0]);
    lemma_digits_read_back(rgb[1]);
    lemma_digits_read_back(rgb[2]);
    lemma_lower_digits_read_back(rgb[0]);
    lemma_lower_digits_read_back(rgb[1]);
    lemma_lower_digits_read_back(rgb[2]);
    lemma_parse_bare_digits(spec_format_hex_color(rgb).drop_first(), rgb);
    lemma_parse_bare_digits(spec_format_lower_hex_color(rgb).drop_first(), rgb);
}

/// Parsing six hex digits with no `#` and no whitespace.
proof fn lemma_parse_bare_digits(d: Seq<char>, rgb: Seq<u8>)
    requires
        d.len() == 6,
        rgb.len() == 3,
        forall|i: int| 0 <= i < 6 ==> is_hex_digit(#[trigger] d[i]),
        hex_byte(d, 0) == rgb[0],
        hex_byte(d, 2) == rgb[1],
        hex_byte(d, 4) == rgb[2],
    ensures
        spec_parse_hex_color(d) == Some(rgb),
{
    assert(is_hex_digit(d[0]));
    assert(!is_unicode_whitespace(d[0]));
    assert(trim_start(d) == d);
    assert(is_hex_digit(d[5]));
    assert(d.last() == d[5]);
    assert(!is_unicode_whitespace(d.last()));
    assert(trim_end(d) == d);
    assert(!(d[0] == '#'));
    assert(strip_hashes(d) == d);
    assert(color_digits(d) == d);
    assert(seq![hex_byte(d, 0), hex_byte(d, 2), hex_byte(d, 4)] =~= rgb);
}

/// Colour of a text, or white when it does not parse.
pub fn color_or_white(text: &str) -> (rgb: [u8; 3])
    ensures
        rgb@ == match spec_parse_hex_color(text@) {
            Some(c) => c,
            None => seq![255u8, 255, 255],
        },
{
    match parse_hex_color(text) {
        Some(c) => c,
        None => {
            let white: [u8; 3] = [255, 255, 255];
            assert(white@ =~= seq![255u8, 255, 255]);
            white
        },
    }
}

} // verus!
