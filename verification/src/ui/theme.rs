//! Colour values of the theme as text: `#RRGGBB` / `#RRGGBBAA`.
use vstd::prelude::*;
use crate::text::{chars_of, string_from_chars, trim, trim_chars};

verus! {

/// An ASCII hexadecimal digit.
pub open spec fn is_hex_digit(c: char) -> bool {
    ('0' <= c && c <= '9') || ('a' <= c && c <= 'f') || ('A' <= c && c <= 'F')
}

/// The value of a hexadecimal digit.
pub open spec fn hex_value(c: char) -> nat {
    if '0' <= c && c <= '9' {
        (c as u32 - '0' as u32) as nat
    } else if 'a' <= c && c <= 'f' {
        (c as u32 - 'a' as u32 + 10) as nat
    } else {
        (c as u32 - 'A' as u32 + 10) as nat
    }
}

/// The hexadecimal digits of `s`, in order, everything else left out.
pub open spec fn hex_digits(s: Seq<char>) -> Seq<char>
    decreases s.len(),
{
    if s.len() == 0 {
        seq![]
    } else if is_hex_digit(s.last()) {
        hex_digits(s.drop_last()).push(s.last())
    } else {
        hex_digits(s.drop_last())
    }
}

/// The byte written by the digits at `2i` and `2i + 1` of `d`.
pub open spec fn byte_of(d: Seq<char>, i: int) -> u8 {
    (hex_value(d[2 * i]) * 16 + hex_value(d[2 * i + 1])) as u8
}

/// The colour that `s` denotes: the hexadecimal digits of the trimmed text, six of
/// them for an opaque colour, eight with an alpha channel; anything else is none.
pub open spec fn parse_hex_spec(s: Seq<char>) -> Option<Seq<u8>> {
    let d = hex_digits(trim(s));
    if d.len() == 6 {
        Some(seq![byte_of(d, 0), byte_of(d, 1), byte_of(d, 2), 255u8])
    } else if d.len() == 8 {
        Some(seq![byte_of(d, 0), byte_of(d, 1), byte_of(d, 2), byte_of(d, 3)])
    } else {
        None
    }
}

/// Upper-case hexadecimal digit of `n` (below 16).
pub open spec fn hex_char(n: nat) -> char {
    if n < 10 {
        ((n + '0' as u32) as u32) as char
    } else {
        ((n - 10 + 'A' as u32) as u32) as char
    }
}

/// `#RRGGBBAA`, in upper case.
pub open spec fn to_hex_spec(c: Seq<u8>) -> Seq<char> {
    seq![
        '#',
        hex_char((c[0] / 16) as nat),
        hex_char((c[0] % 16) as nat),
        hex_char((c[1] / 16) as nat),
        hex_char((c[1] % 16) as nat),
        hex_char((c[2] / 16) as nat),
        hex_char((c[2] % 16) as nat),
        hex_char((c[3] / 16) as nat),
        hex_char((c[3] % 16) as nat),
    ]
}

fn hex_value_exec(c: char) -> (v: u8)
    requires
        is_hex_digit(c),
    ensures
        v as nat == hex_value(c),
        v < 16,
{
    if '0' <= c && c <= '9' {
        (c as u32 - '0' as u32) as u8
    } else if 'a' <= c && c <= 'f' {
        (c as u32 - 'a' as u32 + 10) as u8
    } else {
        (c as u32 - 'A' as u32 + 10) as u8
    }
}

fn hex_char_exec(n: u8) -> (c: char)
    requires
        n < 16,
    ensures
        c == hex_char(n as nat),
{
    match n {
        0 => '0',
        1 => '1',
        2 => '2',
        3 => '3',
        4 => '4',
        5 => '5',
        6 => '6',
        7 => '7',
        8 => '8',
        9 => '9',
        10 => 'A',
        11 => 'B',
        12 => 'C',
        13 => 'D',
        14 => 'E',
        _ => 'F',
    }
}

/// Parse a colour written `#RRGGBB` or `#RRGGBBAA`. Only the ASCII hexadecimal digits
/// of the trimmed text count (a `#` or full-width characters are skipped); six digits
/// give an opaque colour, eight a colour with alpha, any other number none.
pub fn parse_hex(hex: &str) -> (r: Option<[u8; 4]>)
    ensures
        match parse_hex_spec(hex@) {
            Some(c) => r matches Some(a) && a@ == c,
            None => r is None,
        },
{
    let v = chars_of(hex);
    let t = trim_chars(v.as_slice());
    let mut d: Vec<char> = Vec::new();
    let mut i: usize = 0;
    while i < t.len()
        invariant
            0 <= i <= t.len(),
            t@ == trim(hex@),
            d@ == hex_digits(t@.take(i as int)),
        decreases t.len() - i,
    {
        assert(t@.take(i + 1).drop_last() =~= t@.take(i as int));
        let c = t[i];
        if ('0' <= c && c <= '9') || ('a' <= c && c <= 'f') || ('A' <= c && c <= 'F') {
            d.push(c);
        }
        i = i + 1;
    }
    assert(t@.take(t.len() as int) =~= t@);
    if d.len() != 6 && d.len() != 8 {
        return None;
    }
    proof {
        assert forall|j: int| 0 <= j < d.len() implies is_hex_digit(#[trigger] d@[j]) by {
            lemma_hex_digits_are_digits(t@, j);
        }
    }
    let r = hex_value_exec(d[0]) * 16 + hex_value_exec(d[1]);
    let g = hex_value_exec(d[2]) * 16 + hex_value_exec(d[3]);
    let b = hex_value_exec(d[4]) * 16 + hex_value_exec(d[5]);
    let a = if d.len() == 8 {
        hex_value_exec(d[6]) * 16 + hex_value_exec(d[7])
    } else {
        255u8
    };
    let out = [r, g, b, a];
    assert(out@ =~= parse_hex_spec(hex@)->0);
    Some(out)
}

proof fn lemma_hex_digits_are_digits(s: Seq<char>, j: int)
    requires
        0 <= j < hex_digits(s).len(),
    ensures
        is_hex_digit(hex_digits(s)[j]),
    decreases s.len(),
{
    if s.len() > 0 {
        if is_hex_digit(s.last()) && j == hex_digits(s).len() - 1 {
        } else {
            lemma_hex_digits_are_digits(s.drop_last(), j);
        }
    }
}

/// Format a colour as `#RRGGBBAA` in upper-case hexadecimal.
pub fn to_hex(rgba: [u8; 4]) -> (s: String)
    ensures
        s@ == to_hex_spec(rgba@),
{
    let mut v: Vec<char> = Vec::new();
    v.push('#');
    let mut i: usize = 0;
    while i < 4
        invariant
            0 <= i <= 4,
            v@.len() == 1 + 2 * i,
            v@[0] == '#',
            forall|j: int|
                0 <= j < i ==> v@[1 + 2 * j] == hex_char((rgba@[j] / 16) as nat) && v@[2 + 2 * j]
                    == hex_char((rgba@[j] % 16) as nat),
        decreases 4 - i,
    {
        let byte = rgba[i];
        v.push(hex_char_exec(byte / 16));
        v.push(hex_char_exec(byte % 16));
        i = i + 1;
    }
    assert(v@ =~= to_hex_spec(rgba@));
    string_from_chars(v.as_slice())
}

} // verus!
verus! {

proof fn lemma_hex_char(n: nat)
    requires
        n < 16,
    ensures
        is_hex_digit(hex_char(n)),
        !crate::text::is_ws(hex_char(n)),
        hex_value(hex_char(n)) == n,
{
}

/// Writing a colour as hexadecimal text and parsing the text back gives the colour.
pub proof fn lemma_hex_round_trip(c: Seq<u8>)
    requires
        c.len() == 4,
    ensures
        parse_hex_spec(to_hex_spec(c)) == Some(c),
{
    let s = to_hex_spec(c);
    assert forall|j: int| 0 <= j < 4 implies c[j] / 16 < 16 && c[j] % 16 < 16 && (c[j] / 16) * 16
        + c[j] % 16 == c[j] by {}
    assert forall|j: int| 1 <= j < 9 implies is_hex_digit(s[j]) && !crate::text::is_ws(s[j]) by {
        if j % 2 == 1 {
            lemma_hex_char((c[(j - 1) / 2] / 16) as nat);
        } else {
            lemma_hex_char((c[(j - 2) / 2] % 16) as nat);
        }
    }
    assert(crate::text::trim_start(s) == s);
    assert(crate::text::trim_end(s) == s);
    assert(trim(s) == s);
    lemma_hex_digits_skip_first(s);
    let d = hex_digits(s);
    assert(d =~= s.drop_first());
    assert forall|j: int| 0 <= j < 4 implies byte_of(d, j) == c[j] by {
        lemma_hex_char((c[j] / 16) as nat);
        lemma_hex_char((c[j] % 16) as nat);
    }
    assert(seq![byte_of(d, 0), byte_of(d, 1), byte_of(d, 2), byte_of(d, 3)] =~= c);
}

/// Writing a colour as `#RRGGBB` (its first seven characters) and parsing the text
/// back gives its red, green and blue, fully opaque.
pub proof fn lemma_rgb_hex_round_trip(c: Seq<u8>)
    requires
        c.len() == 4,
    ensures
        parse_hex_spec(to_hex_spec(c).take(7)) == Some(seq![c[0], c[1], c[2], 255u8]),
{
    let s = to_hex_spec(c).take(7);
    assert forall|j: int| 0 <= j < 3 implies c[j] / 16 < 16 && c[j] % 16 < 16 && (c[j] / 16) * 16
        + c[j] % 16 == c[j] by {}
    assert forall|j: int| 1 <= j < 7 implies is_hex_digit(s[j]) && !crate::text::is_ws(s[j]) by {
        if j % 2 == 1 {
            lemma_hex_char((c[(j - 1) / 2] / 16) as nat);
        } else {
            lemma_hex_char((c[(j - 2) / 2] % 16) as nat);
        }
    }
    assert(crate::text::trim_start(s) == s);
    assert(crate::text::trim_end(s) == s);
    assert(trim(s) == s);
    lemma_hex_digits_skip_first(s);
    let d = hex_digits(s);
    assert(d =~= s.drop_first());
    assert forall|j: int| 0 <= j < 3 implies byte_of(d, j) == c[j] by {
        lemma_hex_char((c[j] / 16) as nat);
        lemma_hex_char((c[j] % 16) as nat);
    }
    assert(seq![byte_of(d, 0), byte_of(d, 1), byte_of(d, 2), 255u8] =~= seq![c[0], c[1], c[2], 255u8]);
}

/// When every character after the first is a digit and the first is not, the digits
/// are the text less its first character.
proof fn lemma_hex_digits_skip_first(s: Seq<char>)
    requires
        s.len() > 0,
        !is_hex_digit(s[0]),
        forall|j: int| 1 <= j < s.len() ==> is_hex_digit(s[j]),
    ensures
        hex_digits(s) == s.drop_first(),
    decreases s.len(),
{
    if s.len() == 1 {
        assert(hex_digits(s.drop_last()) == Seq::<char>::empty());
        assert(s.drop_first() =~= Seq::<char>::empty());
    } else {
        lemma_hex_digits_skip_first(s.drop_last());
        assert(s.drop_last().drop_first().push(s.last()) =~= s.drop_first());
    }
}

} // verus!
