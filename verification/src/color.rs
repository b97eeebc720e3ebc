//! Colours: the HSBK encoding of the lamps, the named colours, and the
//! conversion from red, green and blue.

use vstd::prelude::*;
use vstd::slice::slice_subrange;
use vstd::string::StringExecFns;
use crate::number::{level_of, number_of_text, wrapped_hue_of, Number};
use crate::text::{
    after, byte_is_space, equals_text, has_space, join, find_byte, has_prefix, index_of_byte, is_space, is_text,
    lemma_word_len_bounds, parse_unsigned, skip, strip, strip_prefix, trim,
    trimmed, unsigned_text_value, word_end, word_len,
};

verus! {

/// Hue of red on the protocol's scale (0 degrees).
pub const HUE_RED: u16 = 0;

/// Hue of orange (about 39 degrees).
pub const HUE_ORANGE: u16 = 7099;

/// Hue of yellow (60 degrees).
pub const HUE_YELLOW: u16 = 10922;

/// Hue of green (120 degrees).
pub const HUE_GREEN: u16 = 21845;

/// Hue of cyan (180 degrees).
pub const HUE_CYAN: u16 = 32768;

/// Hue of blue (240 degrees).
pub const HUE_BLUE: u16 = 43690;

/// Hue of purple (about 275 degrees).
pub const HUE_PURPLE: u16 = 50062;

/// Hue of pink (about 350 degrees).
pub const HUE_PINK: u16 = 63715;

/// Lowest colour temperature that a colour expression can set.
pub const KELVIN_MIN: u16 = 1500;

/// Highest colour temperature that a colour expression can set.
pub const KELVIN_MAX: u16 = 9000;

/// A colour as the lamps encode it: hue, saturation, brightness and colour
/// temperature, sixteen bits each.
#[derive(Clone, Copy, Debug, PartialEq, Eq, Structural)]
pub struct Hsbk {
    pub hue: u16,
    pub saturation: u16,
    pub brightness: u16,
    pub kelvin: u16,
}

/// The colour of a device as it is shown to clients.
#[derive(Clone, Copy, Debug, PartialEq, Eq, Structural)]
pub struct LifxColor {
    pub hue: u16,
    pub saturation: u16,
    pub kelvin: u16,
    pub brightness: u16,
}

/// Why a colour expression could not be turned into a colour.
#[derive(Clone, Copy, Debug, PartialEq, Eq, Structural)]
pub enum ColorError {
    InvalidKelvin,
    InvalidHue,
    InvalidSaturation,
    InvalidBrightness,
    RgbFormat,
    InvalidRed,
    InvalidGreen,
    InvalidBlue,
    HexLength,
    InvalidHex,
    UnknownColor,
}

/// One component that a colour expression sets.
#[derive(Clone, Copy, Debug, PartialEq, Eq, Structural)]
pub enum Adjustment {
    Kelvin(u16),
    Hue(Number),
    Saturation(Number),
    Brightness(Number),
}

/// The colour from which an expression starts: the device's last known
/// colour, or black-body white at full brightness where none is known.
pub open spec fn baseline_of(current: Option<LifxColor>, default_kelvin: u16) -> Hsbk {
    match current {
        Some(c) => Hsbk {
            hue: c.hue,
            saturation: c.saturation,
            brightness: c.brightness,
            kelvin: c.kelvin,
        },
        None => Hsbk { hue: 0, saturation: 0, brightness: 65535, kelvin: default_kelvin },
    }
}

/// The colour from which an expression starts.
pub fn baseline(current: Option<&LifxColor>, default_kelvin: u16) -> (r: Hsbk)
    ensures
        r == baseline_of(
            match current {
                Some(c) => Some(*c),
                None => None,
            },
            default_kelvin,
        ),
{
    match current {
        Some(c) => Hsbk {
            hue: c.hue,
            saturation: c.saturation,
            brightness: c.brightness,
            kelvin: c.kelvin,
        },
        None => Hsbk { hue: 0, saturation: 0, brightness: 65535, kelvin: default_kelvin },
    }
}

/// Hue and saturation of a named colour.
pub open spec fn named_color(s: Seq<u8>) -> Option<(u16, u16)> {
    if is_text(s, "white"@) {
        Some((0u16, 0u16))
    } else if is_text(s, "red"@) {
        Some((0u16, 65535u16))
    } else if is_text(s, "orange"@) {
        Some((7098u16, 65535u16))
    } else if is_text(s, "yellow"@) {
        Some((10920u16, 65535u16))
    } else if is_text(s, "cyan"@) {
        Some((32760u16, 65535u16))
    } else if is_text(s, "green"@) {
        Some((21840u16, 65535u16))
    } else if is_text(s, "blue"@) {
        Some((43680u16, 65535u16))
    } else if is_text(s, "purple"@) {
        Some((50050u16, 65535u16))
    } else if is_text(s, "pink"@) {
        Some((63700u16, 25000u16))
    } else {
        None
    }
}

/// Looks a colour name up.
pub fn lookup_named(s: &[u8]) -> (r: Option<(u16, u16)>)
    ensures
        r == named_color(s@),
{
    if equals_text(s, "white") {
        Some((0, 0))
    } else if equals_text(s, "red") {
        Some((0, 65535))
    } else if equals_text(s, "orange") {
        Some((7098, 65535))
    } else if equals_text(s, "yellow") {
        Some((10920, 65535))
    } else if equals_text(s, "cyan") {
        Some((32760, 65535))
    } else if equals_text(s, "green") {
        Some((21840, 65535))
    } else if equals_text(s, "blue") {
        Some((43680, 65535))
    } else if equals_text(s, "purple") {
        Some((50050, 65535))
    } else if equals_text(s, "pink") {
        Some((63700, 25000))
    } else {
        None
    }
}

/// The smallest of three.
pub open spec fn min3(a: int, b: int, c: int) -> int {
    if a <= b && a <= c {
        a
    } else if b <= c {
        b
    } else {
        c
    }
}

/// The largest of three.
pub open spec fn max3(a: int, b: int, c: int) -> int {
    if a >= b && a >= c {
        a
    } else if b >= c {
        b
    } else {
        c
    }
}

/// Hue of a colour in billionths of a degree, rounded down: the position
/// on the colour wheel of the strongest channel, shifted by the difference
/// of the two others.
pub open spec fn hsl_hue_nanos(r: int, g: int, b: int) -> int {
    let hi = max3(r, g, b);
    let diff = hi - min3(r, g, b);
    if diff == 0 {
        0
    } else if hi == r {
        if g < b {
            (g - b + 6 * diff) * 60_000_000_000 / diff
        } else {
            (g - b) * 60_000_000_000 / diff
        }
    } else if hi == g {
        (b - r + 2 * diff) * 60_000_000_000 / diff
    } else {
        (r - g + 4 * diff) * 60_000_000_000 / diff
    }
}

/// Saturation of a colour in billionths, rounded down.
pub open spec fn hsl_saturation_nanos(r: int, g: int, b: int) -> int {
    let hi = max3(r, g, b);
    let lo = min3(r, g, b);
    if hi == lo {
        0
    } else if hi + lo < 255 {
        (hi - lo) * 1_000_000_000 / (hi + lo)
    } else {
        (hi - lo) * 1_000_000_000 / (510 - hi - lo)
    }
}

/// Lightness of a colour in billionths, rounded down.
pub open spec fn hsl_lightness_nanos(r: int, g: int, b: int) -> int {
    (max3(r, g, b) + min3(r, g, b)) * 1_000_000_000 / 510
}

/// Hue (degrees), saturation and lightness (fractions of one) of a colour
/// given by its red, green and blue channels.
pub fn rgb_to_hsl(r: u8, g: u8, b: u8) -> (hsl: (Number, Number, Number))
    ensures
        hsl.0 == (Number::Finite { nanos: hsl_hue_nanos(r as int, g as int, b as int) as i64 }),
        hsl.1 == (Number::Finite {
            nanos: hsl_saturation_nanos(r as int, g as int, b as int) as i64,
        }),
        hsl.2 == (Number::Finite {
            nanos: hsl_lightness_nanos(r as int, g as int, b as int) as i64,
        }),
        0 <= hsl_hue_nanos(r as int, g as int, b as int) < 360_000_000_000,
        0 <= hsl_saturation_nanos(r as int, g as int, b as int) <= 1_000_000_000,
        0 <= hsl_lightness_nanos(r as int, g as int, b as int) <= 1_000_000_000,
{
    let ri: i64 = r as i64;
    let gi: i64 = g as i64;
    let bi: i64 = b as i64;
    let hi: i64 = if ri >= gi && ri >= bi {
        ri
    } else if gi >= bi {
        gi
    } else {
        bi
    };
    let lo: i64 = if ri <= gi && ri <= bi {
        ri
    } else if gi <= bi {
        gi
    } else {
        bi
    };
    let diff: i64 = hi - lo;
    let l: i64 = (hi + lo) * 1_000_000_000 / 510;
    if diff == 0 {
        return (Number::Finite { nanos: 0 }, Number::Finite { nanos: 0 }, Number::Finite { nanos: l });
    }
    let ghost m: int = if hi + lo < 255 {
        hi + lo
    } else {
        510 - hi - lo
    };
    assert(0 <= (diff as int) * 1_000_000_000 / m <= 1_000_000_000) by (nonlinear_arith)
        requires
            0 < diff <= m,
    ;
    let s: i64 = if hi + lo < 255 {
        diff * 1_000_000_000 / (hi + lo)
    } else {
        diff * 1_000_000_000 / (510 - hi - lo)
    };
    let sixths: i64 = if hi == ri {
        if gi < bi {
            gi - bi + 6 * diff
        } else {
            gi - bi
        }
    } else if hi == gi {
        bi - ri + 2 * diff
    } else {
        ri - gi + 4 * diff
    };
    assert(0 <= sixths < 6 * diff);
    assert(sixths * 60_000_000_000 / (diff as int) < 360_000_000_000) by (nonlinear_arith)
        requires
            0 <= sixths < 6 * diff,
            diff > 0,
    ;
    assert(0 <= sixths * 60_000_000_000 / (diff as int)) by (nonlinear_arith)
        requires
            0 <= sixths,
            diff > 0,
    ;
    let h: i64 = sixths * 60_000_000_000 / diff;
    (Number::Finite { nanos: h }, Number::Finite { nanos: s }, Number::Finite { nanos: l })
}


/// The component that a token such as `hue:120` sets: `None` where the text
/// begins with none of the four keywords, an error where its value cannot
/// be read.
pub open spec fn adjustment_of(s: Seq<u8>) -> Option<Result<Adjustment, ColorError>> {
    if has_prefix(s, "kelvin:"@) {
        Some(
            match unsigned_text_value(strip(s, "kelvin:"@), 65535) {
                Some(k) => Ok(Adjustment::Kelvin(k as u16)),
                None => Err(ColorError::InvalidKelvin),
            },
        )
    } else if has_prefix(s, "hue:"@) {
        Some(
            match number_of_text(strip(s, "hue:"@)) {
                Some(n) => Ok(Adjustment::Hue(n)),
                None => Err(ColorError::InvalidHue),
            },
        )
    } else if has_prefix(s, "saturation:"@) {
        Some(
            match number_of_text(strip(s, "saturation:"@)) {
                Some(n) => Ok(Adjustment::Saturation(n)),
                None => Err(ColorError::InvalidSaturation),
            },
        )
    } else if has_prefix(s, "brightness:"@) {
        Some(
            match number_of_text(strip(s, "brightness:"@)) {
                Some(n) => Ok(Adjustment::Brightness(n)),
                None => Err(ColorError::InvalidBrightness),
            },
        )
    } else {
        None
    }
}

/// Reads a token that sets one component.
pub fn read_adjustment(s: &[u8]) -> (r: Option<Result<Adjustment, ColorError>>)
    ensures
        r == adjustment_of(s@),
{
    if let Some(rest) = strip_prefix(s, "kelvin:") {
        match parse_unsigned(rest, 65535) {
            Some(k) => Some(Ok(Adjustment::Kelvin(k as u16))),
            None => Some(Err(ColorError::InvalidKelvin)),
        }
    } else if let Some(rest) = strip_prefix(s, "hue:") {
        match Number::parse(rest) {
            Some(n) => Some(Ok(Adjustment::Hue(n))),
            None => Some(Err(ColorError::InvalidHue)),
        }
    } else if let Some(rest) = strip_prefix(s, "saturation:") {
        match Number::parse(rest) {
            Some(n) => Some(Ok(Adjustment::Saturation(n))),
            None => Some(Err(ColorError::InvalidSaturation)),
        }
    } else if let Some(rest) = strip_prefix(s, "brightness:") {
        match Number::parse(rest) {
            Some(n) => Some(Ok(Adjustment::Brightness(n))),
            None => Some(Err(ColorError::InvalidBrightness)),
        }
    } else {
        None
    }
}

/// A colour temperature confined to what the lamps accept.
pub open spec fn clamp_kelvin(k: u16) -> u16 {
    if k < 1500 {
        1500
    } else if k > 9000 {
        9000
    } else {
        k
    }
}

/// The colour `base` with one component set.  A colour temperature that
/// stands alone also removes the saturation (`white`); inside a combination
/// it does not.
pub open spec fn adjusted(base: Hsbk, a: Adjustment, white: bool) -> Hsbk {
    match a {
        Adjustment::Kelvin(k) => Hsbk {
            hue: base.hue,
            saturation: if white {
                0
            } else {
                base.saturation
            },
            brightness: base.brightness,
            kelvin: clamp_kelvin(k),
        },
        Adjustment::Hue(n) => Hsbk {
            hue: wrapped_hue_of(n) as u16,
            saturation: base.saturation,
            brightness: base.brightness,
            kelvin: base.kelvin,
        },
        Adjustment::Saturation(n) => Hsbk {
            hue: base.hue,
            saturation: level_of(n) as u16,
            brightness: base.brightness,
            kelvin: base.kelvin,
        },
        Adjustment::Brightness(n) => Hsbk {
            hue: base.hue,
            saturation: base.saturation,
            brightness: level_of(n) as u16,
            kelvin: base.kelvin,
        },
    }
}

/// Sets one component of `base`.
pub fn adjust(base: Hsbk, a: Adjustment, white: bool) -> (r: Hsbk)
    ensures
        r == adjusted(base, a, white),
{
    match a {
        Adjustment::Kelvin(k) => {
            let kelvin: u16 = if k < KELVIN_MIN {
                KELVIN_MIN
            } else if k > KELVIN_MAX {
                KELVIN_MAX
            } else {
                k
            };
            Hsbk {
                hue: base.hue,
                saturation: if white {
                    0
                } else {
                    base.saturation
                },
                brightness: base.brightness,
                kelvin,
            }
        },
        Adjustment::Hue(n) => Hsbk {
            hue: n.to_wrapped_hue(),
            saturation: base.saturation,
            brightness: base.brightness,
            kelvin: base.kelvin,
        },
        Adjustment::Saturation(n) => Hsbk {
            hue: base.hue,
            saturation: n.to_level(),
            brightness: base.brightness,
            kelvin: base.kelvin,
        },
        Adjustment::Brightness(n) => Hsbk {
            hue: base.hue,
            saturation: base.saturation,
            brightness: n.to_level(),
            kelvin: base.kelvin,
        },
    }
}

/// The ranges that validation admits: 1500 to 9000 kelvin, 0 to 360
/// degrees, fractions between 0 and 1.
pub open spec fn adjustment_in_range(a: Adjustment) -> bool {
    match a {
        Adjustment::Kelvin(k) => 1500 <= k <= 9000,
        Adjustment::Hue(n) => n matches Number::Finite { nanos } && 0 <= nanos
            <= 360_000_000_000,
        Adjustment::Saturation(n) => n matches Number::Finite { nanos } && 0 <= nanos
            <= 1_000_000_000,
        Adjustment::Brightness(n) => n matches Number::Finite { nanos } && 0 <= nanos
            <= 1_000_000_000,
    }
}

/// Is the text a token whose value can be read and lies in range?
pub open spec fn adjustment_valid(s: Seq<u8>) -> bool {
    adjustment_of(s) matches Some(Ok(a)) && adjustment_in_range(a)
}

/// Does the component lie in the range that validation admits?
pub fn check_adjustment(a: Adjustment) -> (r: bool)
    ensures
        r == adjustment_in_range(a),
{
    match a {
        Adjustment::Kelvin(k) => KELVIN_MIN <= k && k <= KELVIN_MAX,
        Adjustment::Hue(n) => n.is_between(0, 360_000_000_000),
        Adjustment::Saturation(n) => n.is_between(0, 1_000_000_000),
        Adjustment::Brightness(n) => n.is_between(0, 1_000_000_000),
    }
}

/// The value of a hexadecimal digit.
pub open spec fn hex_digit_value(b: u8) -> Option<u8> {
    if 48 <= b <= 57 {
        Some((b - 48) as u8)
    } else if 97 <= b <= 102 {
        Some((b - 87) as u8)
    } else if 65 <= b <= 70 {
        Some((b - 55) as u8)
    } else {
        None
    }
}

/// The byte written by the two hexadecimal digits at `i` and `i + 1`.
pub open spec fn hex_pair(s: Seq<u8>, i: int) -> Option<u8> {
    match (hex_digit_value(s[i]), hex_digit_value(s[i + 1])) {
        (Some(a), Some(b)) => Some((a * 16 + b) as u8),
        _ => None,
    }
}

/// The three channels of a colour written as six hexadecimal digits.
pub open spec fn hex_rgb(body: Seq<u8>) -> Result<(u8, u8, u8), ColorError> {
    if body.len() != 6 {
        Err(ColorError::HexLength)
    } else {
        match (hex_pair(body, 0), hex_pair(body, 2), hex_pair(body, 4)) {
            (Some(r), Some(g), Some(b)) => Ok((r, g, b)),
            _ => Err(ColorError::InvalidHex),
        }
    }
}

fn read_hex_digit(b: u8) -> (r: Option<u8>)
    ensures
        r == hex_digit_value(b),
{
    if 48 <= b && b <= 57 {
        Some(b - 48)
    } else if 97 <= b && b <= 102 {
        Some(b - 87)
    } else if 65 <= b && b <= 70 {
        Some(b - 55)
    } else {
        None
    }
}

fn read_hex_pair(s: &[u8], i: usize) -> (r: Option<u8>)
    requires
        i + 1 < s.len(),
    ensures
        r == hex_pair(s@, i as int),
{
    match (read_hex_digit(s[i]), read_hex_digit(s[i + 1])) {
        (Some(a), Some(b)) => Some(a * 16 + b),
        _ => None,
    }
}

/// Reads six hexadecimal digits as red, green and blue.
pub fn read_hex(body: &[u8]) -> (r: Result<(u8, u8, u8), ColorError>)
    ensures
        r == hex_rgb(body@),
{
    if body.len() != 6 {
        return Err(ColorError::HexLength);
    }
    match (read_hex_pair(body, 0), read_hex_pair(body, 2), read_hex_pair(body, 4)) {
        (Some(r), Some(g), Some(b)) => Ok((r, g, b)),
        _ => Err(ColorError::InvalidHex),
    }
}

/// The three fields of a text that two commas divide; `None` where the
/// text holds fewer or more commas.
pub open spec fn rgb_fields(body: Seq<u8>) -> Option<(Seq<u8>, Seq<u8>, Seq<u8>)> {
    let k1 = index_of_byte(body, 44);
    if k1 >= body.len() {
        None
    } else {
        let rest1 = after(body, (k1 + 1) as nat);
        let k2 = index_of_byte(rest1, 44);
        if k2 >= rest1.len() {
            None
        } else {
            let rest2 = after(rest1, (k2 + 1) as nat);
            if index_of_byte(rest2, 44) < rest2.len() {
                None
            } else {
                Some((body.subrange(0, k1), rest1.subrange(0, k2), rest2))
            }
        }
    }
}

/// Divides a text at its two commas.
pub fn split_rgb<'a>(body: &'a [u8]) -> (r: Option<(&'a [u8], &'a [u8], &'a [u8])>)
    ensures
        match rgb_fields(body@) {
            Some((a, b, c)) => r.is_some() && r.unwrap().0@ == a && r.unwrap().1@ == b
                && r.unwrap().2@ == c,
            None => r.is_none(),
        },
{
    let k1: usize = find_byte(body, 44);
    if k1 >= body.len() {
        return None;
    }
    let rest1: &[u8] = skip(body, k1 + 1);
    let k2: usize = find_byte(rest1, 44);
    if k2 >= rest1.len() {
        return None;
    }
    let rest2: &[u8] = skip(rest1, k2 + 1);
    if find_byte(rest2, 44) < rest2.len() {
        return None;
    }
    Some((slice_subrange(body, 0, k1), slice_subrange(rest1, 0, k2), rest2))
}

/// The three channels of a colour written as three decimal bytes between
/// commas; white space around a number is passed over.
pub open spec fn rgb_of(body: Seq<u8>) -> Result<(u8, u8, u8), ColorError> {
    match rgb_fields(body) {
        None => Err(ColorError::RgbFormat),
        Some((r, g, b)) => match unsigned_text_value(trimmed(r), 255) {
            None => Err(ColorError::InvalidRed),
            Some(rv) => match unsigned_text_value(trimmed(g), 255) {
                None => Err(ColorError::InvalidGreen),
                Some(gv) => match unsigned_text_value(trimmed(b), 255) {
                    None => Err(ColorError::InvalidBlue),
                    Some(bv) => Ok((rv as u8, gv as u8, bv as u8)),
                },
            },
        },
    }
}

/// Reads three decimal bytes between commas as red, green and blue.
pub fn read_rgb(body: &[u8]) -> (r: Result<(u8, u8, u8), ColorError>)
    ensures
        r == rgb_of(body@),
{
    match split_rgb(body) {
        None => Err(ColorError::RgbFormat),
        Some((r, g, b)) => match parse_unsigned(trim(r), 255) {
            None => Err(ColorError::InvalidRed),
            Some(rv) => match parse_unsigned(trim(g), 255) {
                None => Err(ColorError::InvalidGreen),
                Some(gv) => match parse_unsigned(trim(b), 255) {
                    None => Err(ColorError::InvalidBlue),
                    Some(bv) => Ok((rv as u8, gv as u8, bv as u8)),
                },
            },
        },
    }
}

/// Hue and saturation that a colour given by red, green and blue has on
/// the lamps' scale, with the lightness as third component.
pub open spec fn rgb_levels(r: u8, g: u8, b: u8) -> (u16, u16, u16) {
    (
        wrapped_hue_of(
            Number::Finite { nanos: hsl_hue_nanos(r as int, g as int, b as int) as i64 },
        ) as u16,
        level_of(
            Number::Finite { nanos: hsl_saturation_nanos(r as int, g as int, b as int) as i64 },
        ) as u16,
        level_of(
            Number::Finite { nanos: hsl_lightness_nanos(r as int, g as int, b as int) as i64 },
        ) as u16,
    )
}

/// Converts red, green and blue to the lamps' scale.
pub fn levels_from_rgb(r: u8, g: u8, b: u8) -> (out: (u16, u16, u16))
    ensures
        out == rgb_levels(r, g, b),
{
    let (h, s, l) = rgb_to_hsl(r, g, b);
    (h.to_wrapped_hue(), s.to_level(), l.to_level())
}

/// The colour that a combination of tokens gives: the words of the text
/// are taken from left to right, each token sets its component, and words
/// that are no tokens are passed over.
pub open spec fn combo_color(s: Seq<u8>, base: Hsbk) -> Result<Hsbk, ColorError>
    decreases s.len(),
    via combo_color_decreases
{
    if s.len() == 0 {
        Ok(base)
    } else if is_space(s[0]) {
        combo_color(s.drop_first(), base)
    } else {
        let n = word_len(s);
        match adjustment_of(s.subrange(0, n)) {
            Some(Err(e)) => Err(e),
            Some(Ok(a)) => combo_color(after(s, n as nat), adjusted(base, a, false)),
            None => combo_color(after(s, n as nat), base),
        }
    }
}

#[via_fn]
proof fn combo_color_decreases(s: Seq<u8>, base: Hsbk) {
    lemma_word_len_bounds(s);
}

/// Resolves a combination of tokens against `base`.
pub fn resolve_combination(s: &[u8], base: Hsbk) -> (r: Result<Hsbk, ColorError>)
    ensures
        r == combo_color(s@, base),
{
    let mut cur: Hsbk = base;
    let mut i: usize = 0;
    assert(after(s@, 0) =~= s@);
    while i < s.len()
        invariant
            i <= s.len(),
            combo_color(s@, base) == combo_color(after(s@, i as nat), cur),
        decreases s.len() - i,
    {
        let ghost tail = after(s@, i as nat);
        assert(tail[0] == s@[i as int]);
        if byte_is_space(s[i]) {
            assert(tail.drop_first() =~= after(s@, (i + 1) as nat));
            i += 1;
        } else {
            let end: usize = word_end(s, i);
            proof {
                lemma_word_len_bounds(tail);
                assert(tail.subrange(0, end - i) =~= s@.subrange(i as int, end as int));
                assert(after(tail, (end - i) as nat) =~= after(s@, end as nat));
            }
            let word: &[u8] = slice_subrange(s, i, end);
            match read_adjustment(word) {
                Some(Err(e)) => {
                    return Err(e);
                },
                Some(Ok(a)) => {
                    cur = adjust(cur, a, false);
                },
                None => {},
            }
            i = end;
        }
    }
    assert(after(s@, i as nat).len() == 0);
    Ok(cur)
}

/// Is every word of the text a token in range, and is there at least one
/// (`seen` tells whether one came before)?
pub open spec fn combo_valid(s: Seq<u8>, seen: bool) -> bool
    decreases s.len(),
    via combo_valid_decreases
{
    if s.len() == 0 {
        seen
    } else if is_space(s[0]) {
        combo_valid(s.drop_first(), seen)
    } else {
        let n = word_len(s);
        adjustment_valid(s.subrange(0, n)) && combo_valid(after(s, n as nat), true)
    }
}

#[via_fn]
proof fn combo_valid_decreases(s: Seq<u8>, seen: bool) {
    lemma_word_len_bounds(s);
}

/// Checks a combination of tokens.
pub fn check_combination(s: &[u8]) -> (r: bool)
    ensures
        r == combo_valid(s@, false),
{
    let mut seen: bool = false;
    let mut i: usize = 0;
    assert(after(s@, 0) =~= s@);
    while i < s.len()
        invariant
            i <= s.len(),
            combo_valid(s@, false) == combo_valid(after(s@, i as nat), seen),
        decreases s.len() - i,
    {
        let ghost tail = after(s@, i as nat);
        assert(tail[0] == s@[i as int]);
        if byte_is_space(s[i]) {
            assert(tail.drop_first() =~= after(s@, (i + 1) as nat));
            i += 1;
        } else {
            let end: usize = word_end(s, i);
            proof {
                lemma_word_len_bounds(tail);
                assert(tail.subrange(0, end - i) =~= s@.subrange(i as int, end as int));
                assert(after(tail, (end - i) as nat) =~= after(s@, end as nat));
            }
            let word: &[u8] = slice_subrange(s, i, end);
            let ok: bool = match read_adjustment(word) {
                Some(Ok(a)) => check_adjustment(a),
                _ => false,
            };
            if !ok {
                return false;
            }
            seen = true;
            i = end;
        }
    }
    assert(after(s@, i as nat).len() == 0);
    seen
}


/// The words in which an error is reported; `input` is the expression that
/// was rejected.
pub open spec fn color_error_chars(e: ColorError, input: Seq<char>) -> Seq<char> {
    match e {
        ColorError::InvalidKelvin => "Invalid kelvin value"@,
        ColorError::InvalidHue => "Invalid hue value"@,
        ColorError::InvalidSaturation => "Invalid saturation value"@,
        ColorError::InvalidBrightness => "Invalid brightness value"@,
        ColorError::RgbFormat => "RGB format must be 'rgb:r,g,b'"@,
        ColorError::InvalidRed => "Invalid red value"@,
        ColorError::InvalidGreen => "Invalid green value"@,
        ColorError::InvalidBlue => "Invalid blue value"@,
        ColorError::HexLength => "Hex color must be 6 characters"@,
        ColorError::InvalidHex => "Invalid hex color"@,
        ColorError::UnknownColor => "Unknown color: "@ + input,
    }
}

impl ColorError {
    /// The error in words; `input` is the expression that was rejected.
    pub fn message(&self, input: &str) -> (r: String)
        ensures
            r@ == color_error_chars(*self, input@),
    {
        match self {
            ColorError::InvalidKelvin => String::from_str("Invalid kelvin value"),
            ColorError::InvalidHue => String::from_str("Invalid hue value"),
            ColorError::InvalidSaturation => String::from_str("Invalid saturation value"),
            ColorError::InvalidBrightness => String::from_str("Invalid brightness value"),
            ColorError::RgbFormat => String::from_str("RGB format must be 'rgb:r,g,b'"),
            ColorError::InvalidRed => String::from_str("Invalid red value"),
            ColorError::InvalidGreen => String::from_str("Invalid green value"),
            ColorError::InvalidBlue => String::from_str("Invalid blue value"),
            ColorError::HexLength => String::from_str("Hex color must be 6 characters"),
            ColorError::InvalidHex => String::from_str("Invalid hex color"),
            ColorError::UnknownColor => join("Unknown color: ", input),
        }
    }
}

/// `base` with the hue and saturation of a named colour.
pub open spec fn with_named(base: Hsbk, named: (u16, u16)) -> Hsbk {
    Hsbk { hue: named.0, saturation: named.1, brightness: base.brightness, kelvin: base.kelvin }
}

/// The colour that a colour expression of a state update denotes, given
/// the colour `base` that the device has:
/// a name sets hue and saturation; `rgb:` and `#` set hue, saturation and
/// brightness; a text with a space is a combination of tokens; any other
/// text is a single token, where a colour temperature also removes the
/// saturation.
pub open spec fn state_color(s: Seq<u8>, base: Hsbk) -> Result<Hsbk, ColorError> {
    match named_color(s) {
        Some(named) => Ok(with_named(base, named)),
        None => if has_prefix(s, "rgb:"@) {
            match rgb_of(strip(s, "rgb:"@)) {
                Ok(c) => Ok(
                    Hsbk {
                        hue: rgb_levels(c.0, c.1, c.2).0,
                        saturation: rgb_levels(c.0, c.1, c.2).1,
                        brightness: rgb_levels(c.0, c.1, c.2).2,
                        kelvin: base.kelvin,
                    },
                ),
                Err(e) => Err(e),
            }
        } else if has_prefix(s, "#"@) {
            match hex_rgb(strip(s, "#"@)) {
                Ok(c) => Ok(
                    Hsbk {
                        hue: rgb_levels(c.0, c.1, c.2).0,
                        saturation: rgb_levels(c.0, c.1, c.2).1,
                        brightness: rgb_levels(c.0, c.1, c.2).2,
                        kelvin: base.kelvin,
                    },
                ),
                Err(e) => Err(e),
            }
        } else if index_of_byte(s, 32) < s.len() {
            combo_color(s, base)
        } else {
            match adjustment_of(s) {
                Some(Ok(a)) => Ok(adjusted(base, a, true)),
                Some(Err(e)) => Err(e),
                None => Err(ColorError::UnknownColor),
            }
        },
    }
}

/// Resolves the colour expression of a state update against `base`.
pub fn resolve_state_color(s: &[u8], base: Hsbk) -> (r: Result<Hsbk, ColorError>)
    ensures
        r == state_color(s@, base),
{
    if let Some(named) = lookup_named(s) {
        return Ok(
            Hsbk {
                hue: named.0,
                saturation: named.1,
                brightness: base.brightness,
                kelvin: base.kelvin,
            },
        );
    }
    if let Some(body) = strip_prefix(s, "rgb:") {
        match read_rgb(body) {
            Ok(c) => {
                let lv = levels_from_rgb(c.0, c.1, c.2);
                Ok(Hsbk { hue: lv.0, saturation: lv.1, brightness: lv.2, kelvin: base.kelvin })
            },
            Err(e) => Err(e),
        }
    } else if let Some(body) = strip_prefix(s, "#") {
        match read_hex(body) {
            Ok(c) => {
                let lv = levels_from_rgb(c.0, c.1, c.2);
                Ok(Hsbk { hue: lv.0, saturation: lv.1, brightness: lv.2, kelvin: base.kelvin })
            },
            Err(e) => Err(e),
        }
    } else if has_space(s) {
        resolve_combination(s, base)
    } else {
        match read_adjustment(s) {
            Some(Ok(a)) => Ok(adjust(base, a, true)),
            Some(Err(e)) => Err(e),
            None => Err(ColorError::UnknownColor),
        }
    }
}

/// The grammar of the colour expressions of a state update, with the
/// ranges that validation admits.
pub open spec fn color_valid(s: Seq<u8>) -> bool {
    if named_color(s).is_some() {
        true
    } else if has_prefix(s, "rgb:"@) {
        rgb_of(strip(s, "rgb:"@)).is_ok()
    } else if has_prefix(s, "#"@) {
        hex_rgb(strip(s, "#"@)).is_ok()
    } else if index_of_byte(s, 32) < s.len() {
        combo_valid(s, false)
    } else {
        adjustment_valid(s)
    }
}

/// Does the text follow the grammar of colour expressions?
pub fn check_color(s: &[u8]) -> (r: bool)
    ensures
        r == color_valid(s@),
{
    if lookup_named(s).is_some() {
        true
    } else if let Some(body) = strip_prefix(s, "rgb:") {
        read_rgb(body).is_ok()
    } else if let Some(body) = strip_prefix(s, "#") {
        read_hex(body).is_ok()
    } else if has_space(s) {
        check_combination(s)
    } else {
        match read_adjustment(s) {
            Some(Ok(a)) => check_adjustment(a),
            _ => false,
        }
    }
}

/// The colour that a colour expression of an effect denotes: a name, a
/// single token, or six hexadecimal digits, which set hue and saturation
/// and leave the brightness as it is.
pub open spec fn effect_color(s: Seq<u8>, base: Hsbk) -> Result<Hsbk, ColorError> {
    match named_color(s) {
        Some(named) => Ok(with_named(base, named)),
        None => match adjustment_of(s) {
            Some(Ok(a)) => Ok(adjusted(base, a, true)),
            Some(Err(e)) => Err(e),
            None => if has_prefix(s, "#"@) {
                match hex_rgb(strip(s, "#"@)) {
                    Ok(c) => Ok(
                        Hsbk {
                            hue: rgb_levels(c.0, c.1, c.2).0,
                            saturation: rgb_levels(c.0, c.1, c.2).1,
                            brightness: base.brightness,
                            kelvin: base.kelvin,
                        },
                    ),
                    Err(e) => Err(e),
                }
            } else {
                Err(ColorError::UnknownColor)
            },
        },
    }
}

/// Resolves the colour expression of an effect against `base`.
pub fn resolve_effect_color(s: &[u8], base: Hsbk) -> (r: Result<Hsbk, ColorError>)
    ensures
        r == effect_color(s@, base),
{
    if let Some(named) = lookup_named(s) {
        return Ok(
            Hsbk {
                hue: named.0,
                saturation: named.1,
                brightness: base.brightness,
                kelvin: base.kelvin,
            },
        );
    }
    match read_adjustment(s) {
        Some(Ok(a)) => Ok(adjust(base, a, true)),
        Some(Err(e)) => Err(e),
        None => {
            if let Some(body) = strip_prefix(s, "#") {
                match read_hex(body) {
                    Ok(c) => {
                        let lv = levels_from_rgb(c.0, c.1, c.2);
                        Ok(
                            Hsbk {
                                hue: lv.0,
                                saturation: lv.1,
                                brightness: base.brightness,
                                kelvin: base.kelvin,
                            },
                        )
                    },
                    Err(e) => Err(e),
                }
            } else {
                Err(ColorError::UnknownColor)
            }
        },
    }
}

/// The colour that a colour expression of a cycle state denotes: a name,
/// a hue, a saturation, or a colour temperature, which gives white.
pub open spec fn cycle_color(s: Seq<u8>, base: Hsbk) -> Result<Hsbk, ColorError> {
    match named_color(s) {
        Some(named) => Ok(with_named(base, named)),
        None => match adjustment_of(s) {
            Some(Ok(Adjustment::Kelvin(k))) => Ok(
                Hsbk {
                    hue: 0,
                    saturation: 0,
                    brightness: base.brightness,
                    kelvin: clamp_kelvin(k),
                },
            ),
            Some(Ok(Adjustment::Brightness(_))) => Err(ColorError::UnknownColor),
            Some(Ok(a)) => Ok(adjusted(base, a, false)),
            Some(Err(ColorError::InvalidBrightness)) => Err(ColorError::UnknownColor),
            Some(Err(e)) => Err(e),
            None => Err(ColorError::UnknownColor),
        },
    }
}

/// Resolves the colour expression of a cycle state against `base`.
pub fn resolve_cycle_color(s: &[u8], base: Hsbk) -> (r: Result<Hsbk, ColorError>)
    ensures
        r == cycle_color(s@, base),
{
    if let Some(named) = lookup_named(s) {
        return Ok(
            Hsbk {
                hue: named.0,
                saturation: named.1,
                brightness: base.brightness,
                kelvin: base.kelvin,
            },
        );
    }
    match read_adjustment(s) {
        Some(Ok(Adjustment::Kelvin(k))) => {
            let white = adjust(base, Adjustment::Kelvin(k), true);
            Ok(Hsbk { hue: 0, saturation: 0, brightness: base.brightness, kelvin: white.kelvin })
        },
        Some(Ok(Adjustment::Brightness(_))) => Err(ColorError::UnknownColor),
        Some(Ok(a)) => Ok(adjust(base, a, false)),
        Some(Err(ColorError::InvalidBrightness)) => Err(ColorError::UnknownColor),
        Some(Err(e)) => Err(e),
        None => Err(ColorError::UnknownColor),
    }
}


/// A combination that validation admits can be resolved against any
/// colour.
pub proof fn lemma_valid_combination_resolves(s: Seq<u8>, seen: bool, base: Hsbk)
    requires
        combo_valid(s, seen),
    ensures
        combo_color(s, base).is_ok(),
    decreases s.len(),
{
    if s.len() == 0 {
    } else if is_space(s[0]) {
        lemma_valid_combination_resolves(s.drop_first(), seen, base);
    } else {
        lemma_word_len_bounds(s);
        let n = word_len(s);
        let a = adjustment_of(s.subrange(0, n)).unwrap().unwrap();
        lemma_valid_combination_resolves(after(s, n as nat), true, adjusted(base, a, false));
    }
}

/// Validation and resolution agree: a colour expression that validation
/// admits can be resolved for every device, whatever colour the device
/// has.
pub proof fn lemma_valid_color_resolves(s: Seq<u8>, base: Hsbk)
    requires
        color_valid(s),
    ensures
        state_color(s, base).is_ok(),
{
    if named_color(s).is_none() && !has_prefix(s, "rgb:"@) && !has_prefix(s, "#"@)
        && index_of_byte(s, 32) < s.len() {
        lemma_valid_combination_resolves(s, false, base);
    }
}

} // verus!
