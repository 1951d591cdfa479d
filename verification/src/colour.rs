//! The colour model: hexadecimal colour strings, and the split of a colour
//! into the four channels that the LEDs are driven with.
//!
//! How much of a colour is white is for the caller to say: the split takes
//! the white level as it is given and works out what is left for red, green
//! and blue.

use crate::pim447::Trackball;
use vstd::prelude::*;

verus! {

/// Why a colour string was not understood.
#[derive(Debug, Clone, Copy, PartialEq, Eq)]
pub enum ParseError {
    /// A field has no characters: the string ends before it.
    Empty,
    /// A field holds a character that is no hexadecimal digit.
    InvalidDigit,
}

/// The smallest of three channel values.
pub open spec fn min3(r: int, g: int, b: int) -> int {
    if r <= g && r <= b {
        r
    } else if g <= b {
        g
    } else {
        b
    }
}

/// The largest of three channel values.
pub open spec fn max3(r: int, g: int, b: int) -> int {
    if r >= g && r >= b {
        r
    } else if g >= b {
        g
    } else {
        b
    }
}

/// Narrowing of a channel value to a byte: values below `0` become `0`,
/// values above `255` become `255`.
pub open spec fn to_byte(v: int) -> u8 {
    if v <= 0 {
        0u8
    } else if v >= 255 {
        255u8
    } else {
        v as u8
    }
}

/// The four-channel form of a colour given as red, green and blue, of
/// which `white` is taken to be white.
///
/// A colour whose largest channel narrows to `0` is black, whatever is said
/// of its white. Otherwise white is as given, and each of the other
/// channels keeps what it has above white, narrowed to a byte: a channel
/// below white keeps nothing.
pub open spec fn split_of(r: int, g: int, b: int, white: u8) -> (u8, u8, u8, u8) {
    if to_byte(max3(r, g, b)) == 0 {
        (0u8, 0u8, 0u8, 0u8)
    } else {
        (to_byte(r - white), to_byte(g - white), to_byte(b - white), white)
    }
}

/// The value of one hexadecimal digit, in either case, if `c` is one.
pub open spec fn hex_digit(c: char) -> Option<int> {
    if '0' <= c <= '9' {
        Some(c as int - '0' as int)
    } else if 'a' <= c <= 'f' {
        Some(c as int - 'a' as int + 10)
    } else if 'A' <= c <= 'F' {
        Some(c as int - 'A' as int + 10)
    } else {
        None
    }
}

/// Number of characters skipped in front of the first field: one when the
/// string has seven characters, none otherwise.
pub open spec fn prefix_len(text: Seq<char>) -> int {
    if text.len() == 7 {
        1
    } else {
        0
    }
}

/// The at most two characters of `text` that start at `start`.
pub open spec fn field_at(text: Seq<char>, start: int) -> Seq<char>
    recommends
        0 <= start,
{
    if start >= text.len() {
        Seq::empty()
    } else if start + 1 >= text.len() {
        text.subrange(start, start + 1)
    } else {
        text.subrange(start, start + 2)
    }
}

/// The number that a field of at most two characters stands for.
///
/// A field is one or two hexadecimal digits, the first of two counting
/// sixteenfold. Nothing else is a number: no sign, no blank.
pub open spec fn field_value(field: Seq<char>) -> Result<i64, ParseError>
    recommends
        field.len() <= 2,
{
    if field.len() == 0 {
        Err(ParseError::Empty)
    } else if field.len() == 1 {
        match hex_digit(field[0]) {
            Some(d) => Ok(d as i64),
            None => Err(ParseError::InvalidDigit),
        }
    } else {
        match (hex_digit(field[0]), hex_digit(field[1])) {
            (Some(high), Some(low)) => Ok((16 * high + low) as i64),
            _ => Err(ParseError::InvalidDigit),
        }
    }
}

/// The red, green and blue that a colour string stands for.
///
/// The three fields follow the prefix, two characters each, and are read in
/// that order; the first one that cannot be read decides the error.
/// Characters behind the third field are not looked at.
pub open spec fn rgb_of_hex(text: Seq<char>) -> Result<(i64, i64, i64), ParseError> {
    let start = prefix_len(text);
    match field_value(field_at(text, start)) {
        Err(e) => Err(e),
        Ok(r) => match field_value(field_at(text, start + 2)) {
            Err(e) => Err(e),
            Ok(g) => match field_value(field_at(text, start + 4)) {
                Err(e) => Err(e),
                Ok(b) => Ok((r, g, b)),
            },
        },
    }
}

/// Whether the two characters of `text` from `start` on are hexadecimal
/// digits.
pub open spec fn is_hex_pair(text: Seq<char>, start: int) -> bool {
    &&& 0 <= start
    &&& start + 2 <= text.len()
    &&& hex_digit(text[start]) is Some
    &&& hex_digit(text[start + 1]) is Some
}

/// The byte that two hexadecimal digits stand for, the first counting
/// sixteenfold.
pub open spec fn hex_pair_value(text: Seq<char>, start: int) -> int {
    16 * hex_digit(text[start])->0 + hex_digit(text[start + 1])->0
}

/// White that does not exceed the smallest channel is taken out of a colour
/// made of bytes without loss: each channel with white put back is the
/// channel it came from. With white the smallest channel itself, one of
/// red, green and blue is left with nothing.
pub proof fn lemma_split_is_lossless(r: u8, g: u8, b: u8, white: u8)
    requires
        white <= min3(r as int, g as int, b as int),
        max3(r as int, g as int, b as int) > 0,
    ensures
        ({
            let (red, green, blue, w) = split_of(r as int, g as int, b as int, white);
            &&& w == white
            &&& red + white == r
            &&& green + white == g
            &&& blue + white == b
            &&& white == min3(r as int, g as int, b as int) ==> red == 0 || green == 0 || blue
                == 0
        }),
{
}

/// Every number that a field stands for is a byte.
pub proof fn lemma_field_is_a_byte(field: Seq<char>)
    ensures
        field_value(field) matches Ok(v) ==> 0 <= v <= 255,
{
}

/// Of a string of six characters, or of seven with one in front, each field
/// has two characters. Such a string is understood exactly when all six are
/// hexadecimal digits; each pair of digits is then one channel, red first.
/// Otherwise the error is `InvalidDigit`.
pub proof fn lemma_six_digits_are_understood(text: Seq<char>)
    requires
        text.len() == 6 || text.len() == 7,
    ensures
        ({
            let start = prefix_len(text);
            let all_digits = is_hex_pair(text, start) && is_hex_pair(text, start + 2)
                && is_hex_pair(text, start + 4);
            &&& rgb_of_hex(text) is Ok <==> all_digits
            &&& !all_digits ==> rgb_of_hex(text) == Err::<(i64, i64, i64), ParseError>(
                ParseError::InvalidDigit,
            )
            &&& rgb_of_hex(text) matches Ok(c) ==> {
                &&& c.0 == hex_pair_value(text, start)
                &&& c.1 == hex_pair_value(text, start + 2)
                &&& c.2 == hex_pair_value(text, start + 4)
                &&& 0 <= c.0 <= 255 && 0 <= c.1 <= 255 && 0 <= c.2 <= 255
            }
        }),
{
    let start = prefix_len(text);
    assert(field_at(text, start) =~= seq![text[start], text[start + 1]]);
    assert(field_at(text, start + 2) =~= seq![text[start + 2], text[start + 3]]);
    assert(field_at(text, start + 4) =~= seq![text[start + 4], text[start + 5]]);
}

/// A character in front of a colour of six characters makes no difference
/// to what is read, be it a colour or an error.
pub proof fn lemma_prefix_makes_no_difference(prefix: char, colour: Seq<char>)
    requires
        colour.len() == 6,
    ensures
        rgb_of_hex(seq![prefix] + colour) == rgb_of_hex(colour),
{
    let text = seq![prefix] + colour;
    assert(field_at(text, 1) =~= field_at(colour, 0));
    assert(field_at(text, 3) =~= field_at(colour, 2));
    assert(field_at(text, 5) =~= field_at(colour, 4));
}

/// A colour string is turned down exactly when one of its three fields is:
/// a field that is missing, or one that holds anything but hexadecimal
/// digits. A sign in a field is such a thing.
pub proof fn lemma_bad_field_is_rejected(text: Seq<char>)
    ensures
        ({
            let start = prefix_len(text);
            rgb_of_hex(text) is Err <==> {
                ||| field_value(field_at(text, start)) is Err
                ||| field_value(field_at(text, start + 2)) is Err
                ||| field_value(field_at(text, start + 4)) is Err
            }
        }),
        text.len() <= prefix_len(text) + 4 ==> rgb_of_hex(text) is Err,
        forall|field: Seq<char>|
            0 < field.len() <= 2 ==> (#[trigger] field_value(field) is Ok <==> forall|i: int|
                0 <= i < field.len() ==> hex_digit(field[i]) is Some),
        forall|field: Seq<char>|
            0 < field.len() && (field[0] == '+' || field[0] == '-') ==> #[trigger] field_value(
                field,
            ) == Err::<i64, ParseError>(ParseError::InvalidDigit),
{
}

impl Trackball {
    /// Splits a colour into red, green, blue and white, given how much of
    /// it is white.
    pub fn rgbw_with_white(r: i64, g: i64, b: i64, white: u8) -> (rgbw: (u8, u8, u8, u8))
        ensures
            rgbw == split_of(r as int, g as int, b as int, white),
            to_byte(max3(r as int, g as int, b as int)) == 0 ==> rgbw == (0u8, 0u8, 0u8, 0u8),
    {
        let largest: i64 = if r >= g && r >= b {
            r
        } else if g >= b {
            g
        } else {
            b
        };
        if narrow(largest) == 0 {
            return (0, 0, 0, 0);
        }
        (above(r, white), above(g, white), above(b, white), white)
    }

    /// Reads a colour string such as `#FF8000` or `FF8000` into red, green
    /// and blue.
    pub fn convert_hex_colour_to_rgb(hexcolour: String) -> (rgb: Result<
        (i64, i64, i64),
        ParseError,
    >)
        ensures
            rgb == rgb_of_hex(hexcolour@),
            rgb matches Ok(c) ==> 0 <= c.0 <= 255 && 0 <= c.1 <= 255 && 0 <= c.2 <= 255,
    {
        let text: &str = hexcolour.as_str();
        let len: usize = text.unicode_len();
        let start: usize = if len == 7 {
            1
        } else {
            0
        };
        let r: i64 = match read_field(text, len, start) {
            Ok(v) => v,
            Err(e) => {
                return Err(e);
            },
        };
        let g: i64 = match read_field(text, len, start + 2) {
            Ok(v) => v,
            Err(e) => {
                return Err(e);
            },
        };
        let b: i64 = match read_field(text, len, start + 4) {
            Ok(v) => v,
            Err(e) => {
                return Err(e);
            },
        };
        Ok((r, g, b))
    }
}

fn narrow(v: i64) -> (byte: u8)
    ensures
        byte == to_byte(v as int),
{
    if v <= 0 {
        0
    } else if v >= 255 {
        255
    } else {
        v as u8
    }
}

fn above(channel: i64, white: u8) -> (byte: u8)
    ensures
        byte == to_byte(channel - white),
{
    if channel <= white as i64 {
        0
    } else {
        narrow(channel - white as i64)
    }
}

fn digit_of(c: char) -> (digit: Option<i64>)
    ensures
        digit is Some <==> hex_digit(c) is Some,
        digit matches Some(d) ==> hex_digit(c) == Some(d as int) && 0 <= d < 16,
{
    if '0' <= c && c <= '9' {
        Some((c as u32 - '0' as u32) as i64)
    } else if 'a' <= c && c <= 'f' {
        Some((c as u32 - 'a' as u32) as i64 + 10)
    } else if 'A' <= c && c <= 'F' {
        Some((c as u32 - 'A' as u32) as i64 + 10)
    } else {
        None
    }
}

fn read_field(text: &str, len: usize, start: usize) -> (value: Result<i64, ParseError>)
    requires
        len == text@.len(),
        start <= 5,
    ensures
        value == field_value(field_at(text@, start as int)),
        value matches Ok(v) ==> 0 <= v <= 255,
{
    if start >= len {
        return Err(ParseError::Empty);
    }
    let first: char = text.get_char(start);
    if start + 1 >= len {
        assert(field_at(text@, start as int) =~= seq![first]);
        return match digit_of(first) {
            Some(d) => Ok(d),
            None => Err(ParseError::InvalidDigit),
        };
    }
    let second: char = text.get_char(start + 1);
    assert(field_at(text@, start as int) =~= seq![first, second]);
    match (digit_of(first), digit_of(second)) {
        (Some(high), Some(low)) => Ok(16 * high + low),
        _ => Err(ParseError::InvalidDigit),
    }
}

} // verus!
