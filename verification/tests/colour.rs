use pim447_trackball::colour::ParseError;
use pim447_trackball::pim447::Trackball;
use std::num::IntErrorKind;

fn rgb(text: &str) -> Result<(i64, i64, i64), ParseError> {
    Trackball::convert_hex_colour_to_rgb(text.to_string())
}

/// How much of a colour is white, worked out in doubles: the three channels
/// are scaled so that the largest becomes 255, and the mean of the largest
/// and the smallest of them is measured from the middle of the range.
fn white_of(r: f64, g: f64, b: f64) -> u8 {
    let t_m = r.max(g).max(b);
    let multiplier = 255.0 / t_m;
    let hues = [r * multiplier, g * multiplier, b * multiplier];
    let max_hue = hues[0].max(hues[1]).max(hues[2]);
    let min_hue = hues[0].min(hues[1]).min(hues[2]);
    let luminance = ((max_hue + min_hue) / 2.0 - 127.5) * (255.0 / 127.5) / multiplier;
    luminance as u8
}

/// A colour string all the way to the four channels.
fn rgbw(text: &str) -> Result<(u8, u8, u8, u8), ParseError> {
    let (r, g, b) = rgb(text)?;
    Ok(Trackball::rgbw_with_white(r, g, b, white_of(r as f64, g as f64, b as f64)))
}

/// What a field of hexadecimal digits stands for: the standard library's
/// reading of it, but for the sign, which is none of the digits.
fn reference_field(field: &str) -> Result<i64, ParseError> {
    if field.starts_with('+') || field.starts_with('-') {
        return Err(ParseError::InvalidDigit);
    }
    match i64::from_str_radix(field, 16) {
        Ok(v) => Ok(v),
        Err(e) => match e.kind() {
            IntErrorKind::Empty => Err(ParseError::Empty),
            IntErrorKind::InvalidDigit => Err(ParseError::InvalidDigit),
            other => panic!("unexpected kind {:?} for {:?}", other, field),
        },
    }
}

#[test]
fn pure_white_goes_to_the_white_channel() {
    assert_eq!(rgb("#FFFFFF"), Ok((255, 255, 255)));
    assert_eq!(white_of(255.0, 255.0, 255.0), 255);
    assert_eq!(rgbw("#FFFFFF"), Ok((0, 0, 0, 255)));
}

#[test]
fn pure_red_has_no_white() {
    assert_eq!(rgb("FF0000"), Ok((255, 0, 0)));
    assert_eq!(white_of(255.0, 0.0, 0.0), 0);
    assert_eq!(rgbw("FF0000"), Ok((255, 0, 0, 0)));
}

#[test]
fn prefix_does_not_change_the_colour() {
    assert_eq!(rgbw("#FF0000"), rgbw("FF0000"));
    assert_eq!(rgb("#12ab9F"), Ok((0x12, 0xab, 0x9f)));
    assert_eq!(rgb("12ab9F"), Ok((0x12, 0xab, 0x9f)));
    // The prefix is whatever stands first in a string of seven characters.
    assert_eq!(rgb("x12ab9F"), Ok((0x12, 0xab, 0x9f)));
    assert_eq!(rgb("012ab9F"), Ok((0x12, 0xab, 0x9f)));
    assert_eq!(rgb("\u{e9}12ab9F"), Ok((0x12, 0xab, 0x9f)));
    assert_eq!(rgb("#ZZ0000"), rgb("ZZ0000"));
}

#[test]
fn letters_that_are_no_digits_are_rejected() {
    assert_eq!(rgbw("ZZ0000"), Err(ParseError::InvalidDigit));
    assert_eq!(rgb("ZZ0000"), Err(ParseError::InvalidDigit));
    assert_eq!(rgb("00ZZ00"), Err(ParseError::InvalidDigit));
    assert_eq!(rgb("0000ZZ"), Err(ParseError::InvalidDigit));
    assert_eq!(rgb("0000G0"), Err(ParseError::InvalidDigit));
    assert_eq!(rgb("00 000"), Err(ParseError::InvalidDigit));
    assert_eq!(rgb("#0000g0"), Err(ParseError::InvalidDigit));
}

#[test]
fn hex_channels_are_read_in_order() {
    assert_eq!(rgb("000000"), Ok((0, 0, 0)));
    assert_eq!(rgb("ffffff"), Ok((255, 255, 255)));
    assert_eq!(rgb("#FF8000"), Ok((255, 128, 0)));
    assert_eq!(rgb("0a0B0c"), Ok((10, 11, 12)));
    assert_eq!(rgb("102030"), Ok((16, 32, 48)));
}

#[test]
fn short_strings_run_out_of_fields() {
    assert_eq!(rgb(""), Err(ParseError::Empty));
    assert_eq!(rgb("F"), Err(ParseError::Empty));
    assert_eq!(rgb("FF"), Err(ParseError::Empty));
    assert_eq!(rgb("FFF"), Err(ParseError::Empty));
    assert_eq!(rgb("FFFF"), Err(ParseError::Empty));
    // A last field of one digit is a number too.
    assert_eq!(rgb("FFFFF"), Ok((255, 255, 15)));
    assert_eq!(rgb("F"), rgb("f"));
}

#[test]
fn first_bad_field_decides_the_error() {
    // Red is bad and green is missing: red is reported.
    assert_eq!(rgb("ZZ"), Err(ParseError::InvalidDigit));
    // Red is fine, green is missing.
    assert_eq!(rgb("00"), Err(ParseError::Empty));
    // Green is bad, blue is missing.
    assert_eq!(rgb("00ZZ"), Err(ParseError::InvalidDigit));
}

#[test]
fn eight_characters_have_no_prefix() {
    assert_eq!(rgb("FF8000AB"), Ok((255, 128, 0)));
    assert_eq!(rgb("FF8000ZZ"), Ok((255, 128, 0)));
    assert_eq!(rgb("#FF80000"), Err(ParseError::InvalidDigit));
}

#[test]
fn signs_are_no_digits() {
    assert_eq!(rgb("+F0000"), Err(ParseError::InvalidDigit));
    assert_eq!(rgb("-F0000"), Err(ParseError::InvalidDigit));
    assert_eq!(rgb("00+F00"), Err(ParseError::InvalidDigit));
    assert_eq!(rgb("0000-0"), Err(ParseError::InvalidDigit));
    assert_eq!(rgb("#+F-F0A"), Err(ParseError::InvalidDigit));
    assert_eq!(rgb("+-0000"), Err(ParseError::InvalidDigit));
    assert_eq!(rgb("0+0000"), Err(ParseError::InvalidDigit));
    assert_eq!(rgb("0000+"), Err(ParseError::InvalidDigit));
    assert_eq!(rgb("0000-"), Err(ParseError::InvalidDigit));
    assert_eq!(rgbw("-F-F-F"), Err(ParseError::InvalidDigit));
}

#[test]
fn fields_are_hexadecimal_digits_and_nothing_else() {
    let mut alphabet: Vec<char> = (0u8..128).map(|b| b as char).collect();
    alphabet.extend(['\u{e9}', '\u{ff10}', '\u{1f600}', '\u{80}']);
    // Fields of two characters, in the place of red.
    for &a in &alphabet {
        for &b in &alphabet {
            let field: String = [a, b].iter().collect();
            let text = format!("{}0000", field);
            let expected = reference_field(&field).map(|v| (v, 0, 0));
            assert_eq!(rgb(&text), expected, "field {:?}", field);
            // Understood exactly when both are hexadecimal digits.
            let digits = a.is_ascii_hexdigit() && b.is_ascii_hexdigit();
            assert_eq!(rgb(&text).is_ok(), digits, "field {:?}", field);
            if !digits {
                assert_eq!(rgb(&text), Err(ParseError::InvalidDigit), "field {:?}", field);
            }
        }
    }
    // Fields of one character and of none, in the place of blue.
    for &a in &alphabet {
        let field: String = [a].iter().collect();
        let text = format!("0000{}", field);
        let expected = reference_field(&field).map(|v| (0, 0, v));
        assert_eq!(rgb(&text), expected, "field {:?}", field);
        assert_eq!(rgb(&text).is_ok(), a.is_ascii_hexdigit(), "field {:?}", field);
    }
    assert_eq!(rgb("0000"), reference_field("").map(|v| (0, 0, v)));
}

#[test]
fn parsed_channels_are_bytes() {
    for text in ["000000", "FFFFFF", "#80ff01", "FFFFF", "x0a0b0c", "fF00Ff99"] {
        let (r, g, b) = rgb(text).unwrap();
        for c in [r, g, b] {
            assert!((0..=255).contains(&c), "{} in {}", c, text);
        }
    }
    for red in 0..=255i64 {
        let text = format!("{:02x}{:02X}00", red, 255 - red);
        assert_eq!(rgb(&text), Ok((red, 255 - red, 0)));
    }
}

#[test]
fn black_stays_black() {
    // Whatever is said of its white, a colour with no channel lit is black.
    for white in [0u8, 1, 2, 128, 255] {
        assert_eq!(Trackball::rgbw_with_white(0, 0, 0, white), (0, 0, 0, 0));
        assert_eq!(Trackball::rgbw_with_white(-1, -200, 0, white), (0, 0, 0, 0));
        assert_eq!(Trackball::rgbw_with_white(-1, -1, -1, white), (0, 0, 0, 0));
        assert_eq!(
            Trackball::rgbw_with_white(i64::MIN, i64::MIN, i64::MIN, white),
            (0, 0, 0, 0)
        );
    }
    assert_eq!(rgbw("000000"), Ok((0, 0, 0, 0)));
}

#[test]
fn channels_keep_what_they_have_above_white() {
    assert_eq!(Trackball::rgbw_with_white(255, 255, 255, 255), (0, 0, 0, 255));
    assert_eq!(Trackball::rgbw_with_white(255, 0, 0, 0), (255, 0, 0, 0));
    assert_eq!(Trackball::rgbw_with_white(200, 150, 100, 100), (100, 50, 0, 100));
    assert_eq!(Trackball::rgbw_with_white(200, 150, 100, 99), (101, 51, 1, 99));
    assert_eq!(Trackball::rgbw_with_white(10, 200, 30, 10), (0, 190, 20, 10));
    assert_eq!(Trackball::rgbw_with_white(0, 0, 1, 0), (0, 0, 1, 0));
    // White is as given, also where it is not the smallest channel.
    assert_eq!(Trackball::rgbw_with_white(7, 3, 3, 3), (4, 0, 0, 3));
    assert_eq!(Trackball::rgbw_with_white(7, 3, 3, 2), (5, 1, 1, 2));
    assert_eq!(Trackball::rgbw_with_white(7, 3, 3, 0), (7, 3, 3, 0));
}

#[test]
fn channel_below_white_keeps_nothing() {
    assert_eq!(Trackball::rgbw_with_white(7, 3, 3, 5), (2, 0, 0, 5));
    assert_eq!(Trackball::rgbw_with_white(7, 3, 3, 7), (0, 0, 0, 7));
    assert_eq!(Trackball::rgbw_with_white(7, 3, 3, 255), (0, 0, 0, 255));
    assert_eq!(Trackball::rgbw_with_white(1, 0, 0, 1), (0, 0, 0, 1));
    assert_eq!(Trackball::rgbw_with_white(10, 20, -5, 0), (10, 20, 0, 0));
    assert_eq!(Trackball::rgbw_with_white(10, 20, -5, 15), (0, 5, 0, 15));
    assert_eq!(Trackball::rgbw_with_white(i64::MIN, 7, 3, 4), (0, 3, 0, 4));
}

#[test]
fn channels_above_the_range_are_narrowed() {
    assert_eq!(Trackball::rgbw_with_white(300, 300, 300, 255), (45, 45, 45, 255));
    assert_eq!(Trackball::rgbw_with_white(1000, 10, 10, 10), (255, 0, 0, 10));
    assert_eq!(Trackball::rgbw_with_white(i64::MAX, 1, 2, 1), (255, 0, 1, 1));
    assert_eq!(Trackball::rgbw_with_white(i64::MAX, i64::MAX, i64::MAX, 255), (255, 255, 255, 255));
    assert_eq!(Trackball::rgbw_with_white(256, 0, 0, 0), (255, 0, 0, 0));
    assert_eq!(Trackball::rgbw_with_white(256, 0, 0, 1), (255, 0, 0, 1));
}

#[test]
fn every_byte_colour_splits_without_loss() {
    let levels: Vec<i64> = (0..=255).step_by(5).collect();
    for &r in &levels {
        for &g in &levels {
            for &b in &levels {
                let smallest = r.min(g).min(b);
                for white in [smallest, (smallest - 1).max(0), smallest / 2, 0] {
                    let (red, green, blue, w) =
                        Trackball::rgbw_with_white(r, g, b, white as u8);
                    if r.max(g).max(b) == 0 {
                        assert_eq!((red, green, blue, w), (0, 0, 0, 0));
                    } else {
                        assert_eq!(w as i64, white);
                        assert_eq!(red as i64 + white, r);
                        assert_eq!(green as i64 + white, g);
                        assert_eq!(blue as i64 + white, b);
                    }
                }
            }
        }
    }
}

#[test]
fn white_in_doubles_may_fall_short_of_the_smallest_channel() {
    // 255/7 has no exact double, and the quotient ends just below 3.
    assert_eq!(white_of(7.0, 3.0, 3.0), 2);
    assert_eq!(rgbw("#070303"), Ok((5, 1, 1, 2)));
    assert_eq!(white_of(7.0, 6.0, 6.0), 5);
    assert_eq!(rgbw("070606"), Ok((2, 1, 1, 5)));
    assert_eq!(white_of(1.0, 1.0, 9.0), 0);
    assert_eq!(rgbw("010109"), Ok((1, 1, 9, 0)));
    // It never exceeds it, so nothing of a colour is lost.
    for r in (0..=255u32).step_by(3) {
        for g in (0..=255u32).step_by(7) {
            for b in (1..=255u32).step_by(11) {
                let white = white_of(r as f64, g as f64, b as f64) as u32;
                let smallest = r.min(g).min(b);
                assert!(white == smallest || white + 1 == smallest, "{:?}", (r, g, b));
            }
        }
    }
}

#[test]
fn colour_strings_go_all_the_way() {
    assert_eq!(rgbw("#336699"), Ok((0, 0x33, 0x66, 0x33)));
    assert_eq!(rgbw("00ff00"), Ok((0, 255, 0, 0)));
    assert_eq!(rgbw("#808080"), Ok((0, 0, 0, 128)));
    for text in ["", "ZZ0000", "FFFF", "#FF80000", "+F0000"] {
        assert_eq!(rgbw(text).err(), rgb(text).err(), "{}", text);
        assert!(rgbw(text).is_err());
    }
}
