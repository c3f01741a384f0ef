//! 8-bit RGB colors and their `#RRGGBB` text form.

use vstd::prelude::*;
use vstd::string::*;

verus! {

/// 8-bit RGB color.
#[derive(Debug, Clone, Copy, PartialEq, Eq, Hash, Structural)]
pub struct Color {
    pub r: u8,
    pub g: u8,
    pub b: u8,
}

/// Returned when a text is not a `#RRGGBB` color.
#[derive(Debug, Clone, PartialEq, Eq)]
pub struct InvalidHex {
    /// The text that was rejected, unchanged.
    pub value: String,
}

/// Whether `c` is one of `0-9`, `a-f`, `A-F`.
pub open spec fn is_hex_digit(c: char) -> bool {
    ('0' <= c <= '9') || ('a' <= c <= 'f') || ('A' <= c <= 'F')
}

/// The number a hex digit stands for; 0 for any other character.
pub open spec fn hex_digit_value(c: char) -> int {
    if '0' <= c <= '9' {
        c as int - '0' as int
    } else if 'a' <= c <= 'f' {
        c as int - 'a' as int + 10
    } else if 'A' <= c <= 'F' {
        c as int - 'A' as int + 10
    } else {
        0
    }
}

/// The uppercase hex digit for a number below 16.
pub open spec fn hex_digit_char(n: int) -> char {
    if n < 10 {
        ('0' as int + n) as char
    } else {
        ('A' as int + n - 10) as char
    }
}

/// Whether `s` is `#` followed by exactly six hex digits.
pub open spec fn is_hex_color(s: Seq<char>) -> bool {
    &&& s.len() == 7
    &&& s[0] == '#'
    &&& forall|i: int| 1 <= i < 7 ==> is_hex_digit(#[trigger] s[i])
}

/// The channel written by the two hex digits `hi` and `lo`.
pub open spec fn hex_pair_value(hi: char, lo: char) -> int {
    16 * hex_digit_value(hi) + hex_digit_value(lo)
}

/// The color that a `#RRGGBB` text stands for.
pub open spec fn hex_color(s: Seq<char>) -> Color {
    Color {
        r: hex_pair_value(s[1], s[2]) as u8,
        g: hex_pair_value(s[3], s[4]) as u8,
        b: hex_pair_value(s[5], s[6]) as u8,
    }
}

/// The canonical text of a color: `#`, then two uppercase hex digits per channel.
pub open spec fn hex_text(c: Color) -> Seq<char> {
    seq![
        '#',
        hex_digit_char(c.r as int / 16),
        hex_digit_char(c.r as int % 16),
        hex_digit_char(c.g as int / 16),
        hex_digit_char(c.g as int % 16),
        hex_digit_char(c.b as int / 16),
        hex_digit_char(c.b as int % 16),
    ]
}

fn digit_of_byte(b: u8) -> (r: Option<u8>)
    ensures
        match r {
            Some(v) => is_hex_digit(b as char) && v == hex_digit_value(b as char),
            None => !is_hex_digit(b as char),
        },
{
    if 48 <= b && b <= 57 {
        Some(b - 48)
    } else if 97 <= b && b <= 102 {
        Some(b - 97 + 10)
    } else if 65 <= b && b <= 70 {
        Some(b - 65 + 10)
    } else {
        None
    }
}

fn hex_digit_str(n: u8) -> (r: &'static str)
    requires
        n < 16,
    ensures
        r@ == seq![hex_digit_char(n as int)],
{
    proof {
        reveal_strlit("0");
        reveal_strlit("1");
        reveal_strlit("2");
        reveal_strlit("3");
        reveal_strlit("4");
        reveal_strlit("5");
        reveal_strlit("6");
        reveal_strlit("7");
        reveal_strlit("8");
        reveal_strlit("9");
        reveal_strlit("A");
        reveal_strlit("B");
        reveal_strlit("C");
        reveal_strlit("D");
        reveal_strlit("E");
        reveal_strlit("F");
    }
    let r = if n == 0 {
        "0"
    } else if n == 1 {
        "1"
    } else if n == 2 {
        "2"
    } else if n == 3 {
        "3"
    } else if n == 4 {
        "4"
    } else if n == 5 {
        "5"
    } else if n == 6 {
        "6"
    } else if n == 7 {
        "7"
    } else if n == 8 {
        "8"
    } else if n == 9 {
        "9"
    } else if n == 10 {
        "A"
    } else if n == 11 {
        "B"
    } else if n == 12 {
        "C"
    } else if n == 13 {
        "D"
    } else if n == 14 {
        "E"
    } else {
        "F"
    };
    assert(r@ =~= seq![hex_digit_char(n as int)]);
    r
}

impl Color {
    /// Parses `#RRGGBB`, digits in either case. Anything else is rejected
    /// with the text handed back.
    pub fn from_hex(hex: &str) -> (r: Result<Color, InvalidHex>)
        ensures
            match r {
                Ok(c) => is_hex_color(hex@) && c == hex_color(hex@),
                Err(e) => !is_hex_color(hex@) && e.value@ == hex@,
            },
    {
        broadcast use is_ascii_spec_bytes;
        if !hex.is_ascii() || hex.len() != 7 {
            return Err(InvalidHex { value: hex.to_owned() });
        }
        let bytes = hex.as_bytes();
        assert(forall|i: int| 0 <= i < 7 ==> bytes@[i] == hex@[i] as u8);
        if bytes[0] != 35 {
            return Err(InvalidHex { value: hex.to_owned() });
        }
        assert(hex@[0] == '#');
        let d1 = digit_of_byte(bytes[1]);
        let d2 = digit_of_byte(bytes[2]);
        let d3 = digit_of_byte(bytes[3]);
        let d4 = digit_of_byte(bytes[4]);
        let d5 = digit_of_byte(bytes[5]);
        let d6 = digit_of_byte(bytes[6]);
        assert(forall|i: int| 1 <= i < 7 ==> bytes@[i] as char == #[trigger] hex@[i]);
        match (d1, d2, d3, d4, d5, d6) {
            (Some(r1), Some(r2), Some(g1), Some(g2), Some(b1), Some(b2)) => Ok(
                Color { r: r1 * 16 + r2, g: g1 * 16 + g2, b: b1 * 16 + b2 },
            ),
            _ => Err(InvalidHex { value: hex.to_owned() }),
        }
    }

    /// Formats as `#RRGGBB` with uppercase digits.
    pub fn to_hex(&self) -> (r: String)
        ensures
            r@ == hex_text(*self),
    {
        let mut out = String::from_str("#");
        proof {
            reveal_strlit("#");
        }
        out.append(hex_digit_str(self.r / 16));
        out.append(hex_digit_str(self.r % 16));
        out.append(hex_digit_str(self.g / 16));
        out.append(hex_digit_str(self.g % 16));
        out.append(hex_digit_str(self.b / 16));
        out.append(hex_digit_str(self.b % 16));
        assert(out@ =~= hex_text(*self));
        out
    }
}

/// Parsing the canonical text of a color gives the color back.
pub proof fn lemma_hex_round_trip(c: Color)
    ensures
        is_hex_color(hex_text(c)),
        hex_color(hex_text(c)) == c,
{
    let s = hex_text(c);
    lemma_hex_digit_char(c.r as int / 16);
    lemma_hex_digit_char(c.r as int % 16);
    lemma_hex_digit_char(c.g as int / 16);
    lemma_hex_digit_char(c.g as int % 16);
    lemma_hex_digit_char(c.b as int / 16);
    lemma_hex_digit_char(c.b as int % 16);
    assert forall|i: int| 1 <= i < 7 implies is_hex_digit(#[trigger] s[i]) by {
        if i == 1 {
        } else if i == 2 {
        } else if i == 3 {
        } else if i == 4 {
        } else if i == 5 {
        } else {
        }
    }
}

/// The digit written for a number below 16 is a hex digit and stands for that number.
pub proof fn lemma_hex_digit_char(n: int)
    requires
        0 <= n < 16,
    ensures
        is_hex_digit(hex_digit_char(n)),
        hex_digit_value(hex_digit_char(n)) == n,
{
}

} // verus!
