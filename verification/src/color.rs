//! RGBA colors and their `#RRGGBBAA` hex form.

use vstd::prelude::*;

use crate::error::Error;

verus! {

/// The red, green, blue and alpha values of a color, one byte each.
#[derive(Clone, Copy, Debug, Default, PartialEq, Eq, Structural, Hash)]
pub struct Color {
    /// The red channel byte.
    pub red: u8,
    /// The green channel byte.
    pub green: u8,
    /// The blue channel byte.
    pub blue: u8,
    /// The alpha channel byte.
    pub alpha: u8,
}

/// The uppercase hex digit for a value below 16.
pub open spec fn hex_char_of_nibble(n: int) -> char {
    if n == 0 {
        '0'
    } else if n == 1 {
        '1'
    } else if n == 2 {
        '2'
    } else if n == 3 {
        '3'
    } else if n == 4 {
        '4'
    } else if n == 5 {
        '5'
    } else if n == 6 {
        '6'
    } else if n == 7 {
        '7'
    } else if n == 8 {
        '8'
    } else if n == 9 {
        '9'
    } else if n == 10 {
        'A'
    } else if n == 11 {
        'B'
    } else if n == 12 {
        'C'
    } else if n == 13 {
        'D'
    } else if n == 14 {
        'E'
    } else {
        'F'
    }
}

/// Whether `c` is a hex digit, in either case.
pub open spec fn is_hex_digit(c: char) -> bool {
    ('0' <= c && c <= '9') || ('a' <= c && c <= 'f') || ('A' <= c && c <= 'F')
}

/// The value of a hex digit, in either case.
pub open spec fn nibble_of_hex_char(c: char) -> int {
    if '0' <= c && c <= '9' {
        c as int - '0' as int
    } else if 'a' <= c && c <= 'f' {
        c as int - 'a' as int + 10
    } else {
        c as int - 'A' as int + 10
    }
}

/// The canonical (uppercase) hex spelling of a color, with the leading
/// `#`: 9 characters in all.
pub open spec fn color_hex(c: Color) -> Seq<char> {
    seq![
        '#',
        hex_char_of_nibble(c.red as int / 16),
        hex_char_of_nibble(c.red as int % 16),
        hex_char_of_nibble(c.green as int / 16),
        hex_char_of_nibble(c.green as int % 16),
        hex_char_of_nibble(c.blue as int / 16),
        hex_char_of_nibble(c.blue as int % 16),
        hex_char_of_nibble(c.alpha as int / 16),
        hex_char_of_nibble(c.alpha as int % 16),
    ]
}

/// Whether `s` is an acceptable hex color string: a leading `#` followed
/// by 6 or 8 hex digits of either case.
pub open spec fn valid_hex(s: Seq<char>) -> bool {
    &&& s.len() == 7 || s.len() == 9
    &&& s[0] == '#'
    &&& forall|i: int| 1 <= i < s.len() ==> is_hex_digit(#[trigger] s[i])
}

/// The byte spelled by the two hex digits at `i` and `i + 1`.
pub open spec fn byte_at(s: Seq<char>, i: int) -> int {
    16 * nibble_of_hex_char(s[i]) + nibble_of_hex_char(s[i + 1])
}

/// The color a valid hex string denotes; a 7-character string leaves the
/// alpha channel at its default of 255.
pub open spec fn color_of_hex(s: Seq<char>) -> Color {
    Color {
        red: byte_at(s, 1) as u8,
        green: byte_at(s, 3) as u8,
        blue: byte_at(s, 5) as u8,
        alpha: if s.len() == 9 {
            byte_at(s, 7) as u8
        } else {
            255
        },
    }
}

/// The single-character string for a hex digit value.
fn hex_digit_str(n: u8) -> (r: &'static str)
    requires
        n < 16,
    ensures
        r@.len() == 1,
        r@[0] == hex_char_of_nibble(n as int),
{
    proof {
        reveal_strlit("0");
        reveal_strlit("1");
        reveal_strlit("2");
        reveal_strlit("3");
        reveal_strlit("4");
        reveal_strlit("5");
        reveal_strlit("6");
        reveal_strlit("7");
        reveal_strlit("8");
        reveal_strlit("9");
        reveal_strlit("A");
        reveal_strlit("B");
        reveal_strlit("C");
        reveal_strlit("D");
        reveal_strlit("E");
        reveal_strlit("F");
    }
    match n {
        0 => "0",
        1 => "1",
        2 => "2",
        3 => "3",
        4 => "4",
        5 => "5",
        6 => "6",
        7 => "7",
        8 => "8",
        9 => "9",
        10 => "A",
        11 => "B",
        12 => "C",
        13 => "D",
        14 => "E",
        _ => "F",
    }
}

/// Appends the two uppercase hex digits of `b` to `s`.
fn append_byte_hex(s: &mut String, b: u8)
    ensures
        final(s)@ == old(s)@ + seq![
            hex_char_of_nibble(b as int / 16),
            hex_char_of_nibble(b as int % 16),
        ],
{
    let hi = hex_digit_str(b / 16);
    let lo = hex_digit_str(b % 16);
    s.append(hi);
    s.append(lo);
    proof {
        assert(final(s)@ =~= old(s)@ + seq![
            hex_char_of_nibble(b as int / 16),
            hex_char_of_nibble(b as int % 16),
        ]);
    }
}

/// The value of one hex digit character, in either case; `None` when the
/// character is not a hex digit.
fn hex_char_val(c: char) -> (r: Option<u8>)
    ensures
        is_hex_digit(c) ==> (r matches Some(v) && v as int == nibble_of_hex_char(c) && v < 16),
        !is_hex_digit(c) ==> r is None,
{
    if '0' <= c && c <= '9' {
        Some(c as u8 - '0' as u8)
    } else if 'a' <= c && c <= 'f' {
        Some(c as u8 - 'a' as u8 + 10)
    } else if 'A' <= c && c <= 'F' {
        Some(c as u8 - 'A' as u8 + 10)
    } else {
        None
    }
}

/// The byte spelled by the hex digits at `i` and `i + 1` of `s`; `None`
/// when either character is not a hex digit.
fn parse_byte_at(s: &str, i: usize) -> (r: Option<u8>)
    requires
        i + 1 < s@.len(),
        s@.len() <= usize::MAX,
    ensures
        (is_hex_digit(s@[i as int]) && is_hex_digit(s@[i + 1])) ==> (r matches Some(v) && v as int
            == byte_at(s@, i as int)),
        !(is_hex_digit(s@[i as int]) && is_hex_digit(s@[i + 1])) ==> r is None,
{
    let hi = hex_char_val(s.get_char(i));
    let lo = hex_char_val(s.get_char(i + 1));
    match (hi, lo) {
        (Some(h), Some(l)) => Some(16 * h + l),
        _ => None,
    }
}

impl Color {
    /// A color from its four channel bytes.
    pub fn from_rgba(red: u8, green: u8, blue: u8, alpha: u8) -> (r: Color)
        ensures
            r == (Color { red, green, blue, alpha }),
    {
        Color { red, green, blue, alpha }
    }

    /// The four channel bytes, in red, green, blue, alpha order.
    pub fn rgba(self) -> (r: (u8, u8, u8, u8))
        ensures
            r == (self.red, self.green, self.blue, self.alpha),
    {
        (self.red, self.green, self.blue, self.alpha)
    }

    /// Convert the color into its 9-character uppercase hex string.
    pub fn into_hex(self) -> (r: String)
        ensures
            r@ == color_hex(self),
    {
        let mut s = String::from_str("#");
        proof {
            reveal_strlit("#");
        }
        append_byte_hex(&mut s, self.red);
        append_byte_hex(&mut s, self.green);
        append_byte_hex(&mut s, self.blue);
        append_byte_hex(&mut s, self.alpha);
        proof {
            assert(s@ =~= color_hex(self));
        }
        s
    }

    /// Create the color from a `#RRGGBBAA` or `#RRGGBB` hex string; the
    /// 7-character form defaults the alpha channel to 255.
    pub fn from_hex(hex: &str) -> (r: Result<Color, Error>)
        ensures
            valid_hex(hex@) ==> r == Ok::<Color, Error>(color_of_hex(hex@)),
            !valid_hex(hex@) ==> r == Err::<Color, Error>(Error::ColorFormat),
    {
        let n = hex.unicode_len();
        if n != 7 && n != 9 {
            return Err(Error::ColorFormat);
        }
        if hex.get_char(0) != '#' {
            return Err(Error::ColorFormat);
        }
        let red = match parse_byte_at(hex, 1) {
            None => {
                return Err(Error::ColorFormat);
            },
            Some(v) => v,
        };
        let green = match parse_byte_at(hex, 3) {
            None => {
                return Err(Error::ColorFormat);
            },
            Some(v) => v,
        };
        let blue = match parse_byte_at(hex, 5) {
            None => {
                return Err(Error::ColorFormat);
            },
            Some(v) => v,
        };
        let alpha = if n == 9 {
            match parse_byte_at(hex, 7) {
                None => {
                    return Err(Error::ColorFormat);
                },
                Some(v) => v,
            }
        } else {
            255
        };
        Ok(Color { red, green, blue, alpha })
    }
}

/// A hex digit's character is a hex digit and decodes back to its value.
proof fn lemma_nibble_round_trip(n: int)
    requires
        0 <= n < 16,
    ensures
        is_hex_digit(hex_char_of_nibble(n)),
        nibble_of_hex_char(hex_char_of_nibble(n)) == n,
{
}

/// Converting a color to hex always yields a valid hex string, and reading
/// it back yields the same color: `from_hex` inverts `into_hex` on every
/// color value.
pub proof fn lemma_color_hex_round_trip(c: Color)
    ensures
        valid_hex(color_hex(c)),
        color_of_hex(color_hex(c)) == c,
{
    let s = color_hex(c);
    assert forall|i: int| 1 <= i < s.len() implies is_hex_digit(#[trigger] s[i]) by {
        lemma_nibble_round_trip(c.red as int / 16);
        lemma_nibble_round_trip(c.red as int % 16);
        lemma_nibble_round_trip(c.green as int / 16);
        lemma_nibble_round_trip(c.green as int % 16);
        lemma_nibble_round_trip(c.blue as int / 16);
        lemma_nibble_round_trip(c.blue as int % 16);
        lemma_nibble_round_trip(c.alpha as int / 16);
        lemma_nibble_round_trip(c.alpha as int % 16);
    }
    lemma_nibble_round_trip(c.red as int / 16);
    lemma_nibble_round_trip(c.red as int % 16);
    lemma_nibble_round_trip(c.green as int / 16);
    lemma_nibble_round_trip(c.green as int % 16);
    lemma_nibble_round_trip(c.blue as int / 16);
    lemma_nibble_round_trip(c.blue as int % 16);
    lemma_nibble_round_trip(c.alpha as int / 16);
    lemma_nibble_round_trip(c.alpha as int % 16);
}

/// Whether every hex digit of `s` (each character after the leading `#`)
/// is spelled uppercase.
pub open spec fn uppercase_hex(s: Seq<char>) -> bool {
    forall|i: int| 1 <= i < s.len() ==> !('a' <= #[trigger] s[i] && s[i] <= 'f')
}

/// An uppercase hex digit character re-encodes to itself.
proof fn lemma_hex_char_round_trip(c: char)
    requires
        is_hex_digit(c),
        !('a' <= c && c <= 'f'),
    ensures
        0 <= nibble_of_hex_char(c) < 16,
        hex_char_of_nibble(nibble_of_hex_char(c)) == c,
{
}

/// On 9-character uppercase hex strings, `into_hex` inverts `from_hex`:
/// reading a color and writing it back reproduces the string exactly.
#[verifier::rlimit(50)]
pub proof fn lemma_hex_color_round_trip(s: Seq<char>)
    requires
        valid_hex(s),
        s.len() == 9,
        uppercase_hex(s),
    ensures
        color_hex(color_of_hex(s)) == s,
{
    let c = color_of_hex(s);
    assert forall|i: int| 1 <= i < 9 implies {
        0 <= nibble_of_hex_char(#[trigger] s[i]) < 16 && hex_char_of_nibble(
            nibble_of_hex_char(s[i]),
        ) == s[i]
    } by {
        lemma_hex_char_round_trip(s[i]);
    }
    assert(color_hex(c) =~= s);
}

} // verus!
