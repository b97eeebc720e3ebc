//! Exact decimal numbers.
//!
//! Fractions, angles and durations reach the gateway as decimal numerals.
//! They are held exactly, in billionths of a unit, so that every range test
//! and every conversion to a protocol integer is plain integer arithmetic.

use vstd::prelude::*;
use vstd::slice::slice_subrange;
use vstd::string::StringExecFns;
use crate::text::{
    all_digits, decimal_chars, digit_char, digit_text, digits_value, equals_text, find_byte,
    index_of_byte, is_all_digits, is_digit, is_text, parse_digits, push_decimal, utf8,
};

verus! {

/// Billionths in one unit.
pub const NANOS_PER_UNIT: i64 = 1_000_000_000;

/// Largest value of a sixteen-bit protocol channel.
pub const CHANNEL_MAX: u16 = 65535;

/// A numeric input: a decimal held in billionths of a unit, or one of the
/// values that are not finite.
#[derive(Clone, Copy, Debug, PartialEq, Eq, Structural)]
pub enum Number {
    /// A decimal number; `nanos` is its value times 10^9.
    Finite { nanos: i64 },
    /// Not a number.
    NaN,
    /// An infinity, negative where `negative` holds.
    Infinite { negative: bool },
}

/// `x` confined to `lo ..= hi`.
pub open spec fn clamp_int(x: int, lo: int, hi: int) -> int {
    if x < lo {
        lo
    } else if x > hi {
        hi
    } else {
        x
    }
}

/// `nanos * factor / divisor`, rounded down, for a positive `nanos`; zero
/// for the others; never more than `cap`.
pub open spec fn scale_positive(nanos: int, factor: int, divisor: int, cap: int) -> int {
    if nanos <= 0 {
        0
    } else if nanos * factor / divisor > cap {
        cap
    } else {
        nanos * factor / divisor
    }
}

/// What a number becomes when it is scaled to a protocol integer: finite
/// values are multiplied, rounded towards zero and confined to `0 ..= cap`;
/// positive infinity gives `cap`; the other values give zero.
pub open spec fn scaled_value(n: Number, factor: int, divisor: int, cap: int) -> int {
    match n {
        Number::Finite { nanos } => scale_positive(nanos as int, factor, divisor, cap),
        Number::NaN => 0,
        Number::Infinite { negative } => if negative {
            0
        } else {
            cap
        },
    }
}

/// A fraction of one as a sixteen-bit channel value.
pub open spec fn level_of(n: Number) -> int {
    scaled_value(n, 65535, 1_000_000_000, 65535)
}

/// An angle in degrees as a protocol hue: 65536 for the full circle,
/// wrapping modulo 65536.
pub open spec fn wrapped_hue_of(n: Number) -> int {
    scaled_value(n, 65536, 360_000_000_000, 0xffff_ffff) % 65536
}

/// Whole seconds of a duration.
pub open spec fn seconds_of(n: Number) -> int {
    scaled_value(n, 1, 1_000_000_000, 0xffff_ffff)
}

/// Whole milliseconds of a duration.
pub open spec fn millis_of(n: Number) -> int {
    scaled_value(n, 1, 1_000_000, 0xffff_ffff)
}

/// The billionths of a number once it is confined to the unit interval.
pub open spec fn unit_nanos(n: Number) -> int {
    match n {
        Number::Finite { nanos } => clamp_int(nanos as int, 0, 1_000_000_000),
        Number::NaN => 0,
        Number::Infinite { negative } => if negative {
            0
        } else {
            1_000_000_000
        },
    }
}

/// The skew ratio of a waveform whose peak lies at the given fraction of
/// its period: the distance from the middle, in units of 1/65535, rounded
/// towards zero.
pub open spec fn skew_of(peak: Number) -> int {
    let v = (unit_nanos(peak) - 500_000_000) * 65535;
    if v >= 0 {
        v / 1_000_000_000
    } else {
        -((-v) / 1_000_000_000)
    }
}

impl Number {
    /// The number `nanos / 10^9`.
    pub fn from_nanos(nanos: i64) -> (r: Number)
        ensures
            r == (Number::Finite { nanos }),
    {
        Number::Finite { nanos }
    }

    /// A whole number.
    pub fn from_units(units: u32) -> (r: Number)
        ensures
            r == (Number::Finite { nanos: (units as int * 1_000_000_000) as i64 }),
    {
        Number::Finite { nanos: (units as i64) * NANOS_PER_UNIT }
    }

    /// Neither an infinity nor NaN.
    pub fn is_finite(&self) -> (r: bool)
        ensures
            r == (*self is Finite),
    {
        match self {
            Number::Finite { .. } => true,
            _ => false,
        }
    }

    /// Is the number finite and within `lo ..= hi` (both in billionths)?
    pub fn is_between(&self, lo: i64, hi: i64) -> (r: bool)
        ensures
            r == (*self matches Number::Finite { nanos } && lo <= nanos <= hi),
    {
        match self {
            Number::Finite { nanos } => lo <= *nanos && *nanos <= hi,
            _ => false,
        }
    }

    fn scale(&self, factor: u64, divisor: u64, cap: u64) -> (r: u64)
        requires
            0 < factor <= 65536,
            divisor > 0,
        ensures
            r == scaled_value(*self, factor as int, divisor as int, cap as int),
    {
        match self {
            Number::Finite { nanos } => {
                if *nanos <= 0 {
                    0
                } else {
                    assert((*nanos as int) * (factor as int) <= 0x7fff_ffff_ffff_ffff * 65536)
                        by (nonlinear_arith)
                        requires
                            0 < *nanos <= 0x7fff_ffff_ffff_ffff,
                            0 < factor <= 65536,
                    ;
                    let wide: u128 = (*nanos as u128) * (factor as u128);
                    let q: u128 = wide / (divisor as u128);
                    if q > cap as u128 {
                        cap
                    } else {
                        q as u64
                    }
                }
            },
            Number::NaN => 0,
            Number::Infinite { negative } => if *negative {
                0
            } else {
                cap
            },
        }
    }

    /// A fraction of one as a channel value: `x * 65535` rounded towards
    /// zero and confined to the channel's range.
    pub fn to_level(&self) -> (r: u16)
        ensures
            r == level_of(*self),
    {
        self.scale(65535, 1_000_000_000, 65535) as u16
    }

    /// Degrees as a protocol hue: `x * 65536 / 360` rounded towards zero,
    /// wrapping modulo 65536.
    pub fn to_wrapped_hue(&self) -> (r: u16)
        ensures
            r == wrapped_hue_of(*self),
    {
        (self.scale(65536, 360_000_000_000, 0xffff_ffff) % 65536) as u16
    }

    /// Whole seconds, confined to thirty-two bits.
    pub fn to_seconds(&self) -> (r: u32)
        ensures
            r == seconds_of(*self),
    {
        self.scale(1, 1_000_000_000, 0xffff_ffff) as u32
    }

    /// Whole milliseconds, confined to thirty-two bits.
    pub fn to_millis(&self) -> (r: u32)
        ensures
            r == millis_of(*self),
    {
        self.scale(1, 1_000_000, 0xffff_ffff) as u32
    }

    /// The billionths of the number, confined to the unit interval.
    pub fn clamp_unit(&self) -> (r: i64)
        ensures
            r == unit_nanos(*self),
    {
        match self {
            Number::Finite { nanos } => {
                if *nanos < 0 {
                    0
                } else if *nanos > NANOS_PER_UNIT {
                    NANOS_PER_UNIT
                } else {
                    *nanos
                }
            },
            Number::NaN => 0,
            Number::Infinite { negative } => if *negative {
                0
            } else {
                NANOS_PER_UNIT
            },
        }
    }

    /// The waveform skew ratio for a peak at this fraction of the period.
    pub fn to_skew_ratio(&self) -> (r: i16)
        ensures
            r == skew_of(*self),
    {
        let c: i64 = self.clamp_unit();
        let v: i64 = (c - 500_000_000) * 65535;
        if v >= 0 {
            (v / NANOS_PER_UNIT) as i16
        } else {
            let m: i64 = (0 - v) / NANOS_PER_UNIT;
            (0 - m) as i16
        }
    }
}


/// A numeral without its sign.
pub open spec fn unsigned_part(s: Seq<u8>) -> Seq<u8> {
    if s.len() > 0 && (s[0] == 43 || s[0] == 45) {
        s.drop_first()
    } else {
        s
    }
}

/// The lower-case form of an ASCII capital; any other byte is itself.
pub open spec fn lower_byte(b: u8) -> u8 {
    if 65 <= b <= 90 {
        (b + 32) as u8
    } else {
        b
    }
}

/// A byte string with its ASCII capitals in lower case.
pub open spec fn lowered(s: Seq<u8>) -> Seq<u8> {
    Seq::new(s.len(), |i: int| lower_byte(s[i]))
}

/// Does a numeral without sign name an infinity?  Capitals count as their
/// lower-case letters.
pub open spec fn is_infinity_word(body: Seq<u8>) -> bool {
    is_text(lowered(body), "inf"@) || is_text(lowered(body), "infinity"@)
}

/// Does a numeral without sign say "not a number"?
pub open spec fn is_nan_word(body: Seq<u8>) -> bool {
    is_text(lowered(body), "nan"@)
}

/// Where the exponent mark, `e` or `E`, of a numeral without sign stands;
/// the numeral's length where it has none.
pub open spec fn exponent_mark(body: Seq<u8>) -> int {
    if index_of_byte(body, 101) <= index_of_byte(body, 69) {
        index_of_byte(body, 101)
    } else {
        index_of_byte(body, 69)
    }
}

/// A numeral without its sign and without its exponent.
pub open spec fn mantissa(s: Seq<u8>) -> Seq<u8> {
    let body = unsigned_part(s);
    body.subrange(0, exponent_mark(body))
}

/// What follows the exponent mark; `None` where the numeral has no mark.
pub open spec fn exponent_text(s: Seq<u8>) -> Option<Seq<u8>> {
    let body = unsigned_part(s);
    if exponent_mark(body) < body.len() {
        Some(body.subrange(exponent_mark(body) + 1, body.len() as int))
    } else {
        None
    }
}

/// The digits before the decimal point.
pub open spec fn int_digits(s: Seq<u8>) -> Seq<u8> {
    mantissa(s).subrange(0, index_of_byte(mantissa(s), 46))
}

/// The digits after the decimal point; empty where there is no point.
pub open spec fn frac_digits(s: Seq<u8>) -> Seq<u8> {
    let m = mantissa(s);
    let k = index_of_byte(m, 46);
    if k < m.len() {
        m.subrange(k + 1, m.len() as int)
    } else {
        Seq::empty()
    }
}

/// The greatest exponent that is told apart: a greater one counts as this.
pub const EXPONENT_MAX: u64 = 0xffff_ffff;

/// The exponent that a text after the mark denotes: an optional sign and at
/// least one digit.  `None` where the text is no such thing.
pub open spec fn exponent_value(t: Seq<u8>) -> Option<int> {
    let d = unsigned_part(t);
    if d.len() > 0 && all_digits(d) {
        let v = if digits_value(d) > EXPONENT_MAX {
            EXPONENT_MAX as int
        } else {
            digits_value(d) as int
        };
        Some(
            if t[0] == 45 {
                -v
            } else {
                v
            },
        )
    } else {
        None
    }
}

/// The exponent of a numeral; zero where it has none.
pub open spec fn exponent_of(s: Seq<u8>) -> int {
    match exponent_text(s) {
        Some(t) => match exponent_value(t) {
            Some(e) => e,
            None => 0,
        },
        None => 0,
    }
}

/// The grammar of a decimal numeral: an optional sign; digits, and
/// optionally a point and more digits, with a digit on at least one side;
/// and optionally an exponent: `e` or `E`, an optional sign, and digits.
pub open spec fn is_decimal_text(s: Seq<u8>) -> bool {
    &&& all_digits(int_digits(s))
    &&& all_digits(frac_digits(s))
    &&& int_digits(s).len() + frac_digits(s).len() > 0
    &&& exponent_text(s) matches Some(t) ==> exponent_value(t).is_some()
}

/// Ten to the power `n`.
pub open spec fn pow10(n: nat) -> nat
    decreases n,
{
    if n == 0 {
        1
    } else {
        10 * pow10((n - 1) as nat)
    }
}

/// The whole number that the first `cut` of `digits` denote; where there
/// are fewer digits than `cut`, zeros stand for the missing ones.
pub open spec fn shifted_value(digits: Seq<u8>, cut: int) -> nat {
    if cut <= 0 {
        0
    } else if cut <= digits.len() {
        digits_value(digits.subrange(0, cut))
    } else {
        digits_value(digits) * pow10((cut - digits.len()) as nat)
    }
}

/// The absolute value of a decimal numeral, in billionths: the point moves
/// right by the exponent and by nine more places, and what then stands
/// behind it is dropped.
pub open spec fn decimal_magnitude(s: Seq<u8>) -> nat {
    shifted_value(int_digits(s) + frac_digits(s), int_digits(s).len() + exponent_of(s) + 9)
}

/// A magnitude confined to what sixty-four signed bits hold.
pub open spec fn capped(m: nat) -> nat {
    if m > 0x7fff_ffff_ffff_ffff {
        0x7fff_ffff_ffff_ffff
    } else {
        m
    }
}

/// The value of a decimal numeral in billionths, confined to what sixty-four
/// signed bits hold.
pub open spec fn decimal_nanos(s: Seq<u8>) -> int {
    if s.len() > 0 && s[0] == 45 {
        -(capped(decimal_magnitude(s)) as int)
    } else {
        capped(decimal_magnitude(s)) as int
    }
}

/// The number that a text denotes: "nan", "inf" or "infinity" in any mix of
/// capitals, with or without a sign, or a decimal numeral.
pub open spec fn number_of_text(s: Seq<u8>) -> Option<Number> {
    if is_nan_word(unsigned_part(s)) {
        Some(Number::NaN)
    } else if is_infinity_word(unsigned_part(s)) {
        Some(Number::Infinite { negative: s.len() > 0 && s[0] == 45 })
    } else if is_decimal_text(s) {
        Some(Number::Finite { nanos: decimal_nanos(s) as i64 })
    } else {
        None
    }
}

proof fn lemma_pow10_grows(a: nat, b: nat)
    requires
        a <= b,
    ensures
        1 <= pow10(a) <= pow10(b),
    decreases b,
{
    if b == 0 {
    } else if a == b {
        lemma_pow10_grows((a - 1) as nat, (b - 1) as nat);
    } else {
        lemma_pow10_grows(a, (b - 1) as nat);
    }
}

/// A copy of `s` with its ASCII capitals in lower case.
fn lower_case(s: &[u8]) -> (r: Vec<u8>)
    ensures
        r@ == lowered(s@),
{
    let mut out: Vec<u8> = Vec::new();
    let mut i: usize = 0;
    while i < s.len()
        invariant
            i <= s.len(),
            out@ == lowered(s@.subrange(0, i as int)),
        decreases s.len() - i,
    {
        let b: u8 = s[i];
        out.push(if 65 <= b && b <= 90 { b + 32 } else { b });
        proof {
            assert(out@ =~= lowered(s@.subrange(0, i + 1)));
        }
        i += 1;
    }
    proof {
        assert(s@.subrange(0, s@.len() as int) =~= s@);
    }
    out
}

/// Reads what follows an exponent mark.
fn read_exponent(t: &[u8]) -> (r: Option<i64>)
    ensures
        r.is_some() == exponent_value(t@).is_some(),
        r matches Some(e) ==> e == exponent_value(t@).unwrap(),
{
    let negative: bool = t.len() > 0 && t[0] == 45;
    let signed: bool = t.len() > 0 && (t[0] == 43 || t[0] == 45);
    let d: &[u8] = if signed {
        slice_subrange(t, 1, t.len())
    } else {
        t
    };
    assert(d@ =~= unsigned_part(t@));
    if d.len() == 0 || !is_all_digits(d) {
        return None;
    }
    let v: u64 = match parse_digits(d, EXPONENT_MAX) {
        Some(v) => v,
        None => EXPONENT_MAX,
    };
    if negative {
        Some(0 - (v as i64))
    } else {
        Some(v as i64)
    }
}

/// The digit at position `i` of `ip` followed by `fp`.
fn digit_at(ip: &[u8], fp: &[u8], i: usize) -> (d: u64)
    requires
        all_digits(ip@),
        all_digits(fp@),
        i < ip@.len() + fp@.len(),
    ensures
        d == (ip@ + fp@)[i as int] - 48,
        d <= 9,
{
    if i < ip.len() {
        assert(is_digit(ip@[i as int]));
        (ip[i] - 48) as u64
    } else {
        assert(is_digit(fp@[i - ip@.len()]));
        (fp[i - ip.len()] - 48) as u64
    }
}

/// The whole number that the first `cut` of the digits `ip` followed by
/// `fp` denote, zeros standing for missing digits, confined to what
/// sixty-four signed bits hold.
fn shifted_digits(ip: &[u8], fp: &[u8], cut: i128) -> (r: u64)
    requires
        all_digits(ip@),
        all_digits(fp@),
        ip@.len() + fp@.len() <= usize::MAX,
    ensures
        r == capped(shifted_value(ip@ + fp@, cut as int)),
{
    let ghost all = ip@ + fp@;
    let total: usize = ip.len() + fp.len();
    let stop: usize = if cut <= 0 {
        0
    } else if cut >= total as i128 {
        total
    } else {
        cut as usize
    };
    let mut acc: u64 = 0;
    let mut i: usize = 0;
    while i < stop
        invariant
            i <= stop <= total,
            total == all.len(),
            all == ip@ + fp@,
            all_digits(ip@),
            all_digits(fp@),
            acc == capped(digits_value(all.subrange(0, i as int))),
        decreases stop - i,
    {
        let d: u64 = digit_at(ip, fp, i);
        proof {
            let longer = all.subrange(0, i + 1);
            assert(longer.drop_last() =~= all.subrange(0, i as int));
            assert(longer.last() == all[i as int]);
        }
        acc = if acc > (0x7fff_ffff_ffff_ffff - d) / 10 {
            0x7fff_ffff_ffff_ffff
        } else {
            acc * 10 + d
        };
        i += 1;
    }
    if cut <= total as i128 {
        return acc;
    }
    proof {
        assert(all.subrange(0, total as int) =~= all);
        assert(pow10(0) == 1);
        assert(digits_value(all) * 1 == digits_value(all));
    }
    let target: i128 = cut - total as i128;
    let mut done: i128 = 0;
    while done < target && acc != 0 && acc != 0x7fff_ffff_ffff_ffff
        invariant
            0 <= done <= target,
            acc == capped(digits_value(all) * pow10(done as nat)),
        decreases target - done,
    {
        proof {
            let v = digits_value(all);
            let p = pow10(done as nat);
            assert(pow10((done + 1) as nat) == 10 * p);
            assert(v * (10 * p) == (v * p) * 10) by (nonlinear_arith);
        }
        acc = if acc > 0x7fff_ffff_ffff_ffff / 10 {
            0x7fff_ffff_ffff_ffff
        } else {
            acc * 10
        };
        done += 1;
    }
    proof {
        let v = digits_value(all);
        let p = pow10(done as nat);
        let q = pow10(target as nat);
        lemma_pow10_grows(done as nat, target as nat);
        if done < target {
            if acc == 0 {
                assert(v == 0) by (nonlinear_arith)
                    requires
                        v * p == 0,
                        p >= 1,
                ;
                assert(v * q == 0) by (nonlinear_arith)
                    requires
                        v == 0,
                ;
            } else {
                assert(v * q >= v * p) by (nonlinear_arith)
                    requires
                        q >= p,
                ;
            }
        }
    }
    acc
}

impl Number {
    /// Reads a number: "nan", "inf" or "infinity" in any mix of capitals,
    /// with or without a sign; or a decimal numeral, which is an optional
    /// sign, digits with or without a point, and optionally an exponent.
    /// Of a numeral's value what lies beyond the ninth place after the
    /// point is dropped, and a value too large for the representation
    /// becomes the largest one.
    pub fn parse(text: &[u8]) -> (r: Option<Number>)
        ensures
            r == number_of_text(text@),
    {
        let negative: bool = text.len() > 0 && text[0] == 45;
        let signed: bool = text.len() > 0 && (text[0] == 43 || text[0] == 45);
        let body: &[u8] = if signed {
            slice_subrange(text, 1, text.len())
        } else {
            text
        };
        assert(body@ =~= unsigned_part(text@));
        let n: usize = body.len();
        if n == "nan".as_bytes().len() || n == "inf".as_bytes().len()
            || n == "infinity".as_bytes().len() {
            let word: Vec<u8> = lower_case(body);
            if equals_text(word.as_slice(), "nan") {
                return Some(Number::NaN);
            }
            if equals_text(word.as_slice(), "inf") || equals_text(word.as_slice(), "infinity") {
                return Some(Number::Infinite { negative });
            }
        }
        let lower_mark: usize = find_byte(body, 101);
        let upper_mark: usize = find_byte(body, 69);
        let mark: usize = if lower_mark <= upper_mark {
            lower_mark
        } else {
            upper_mark
        };
        let m: &[u8] = slice_subrange(body, 0, mark);
        assert(m@ =~= mantissa(text@));
        let k: usize = find_byte(m, 46);
        let ip: &[u8] = slice_subrange(m, 0, k);
        let fp: &[u8] = if k < m.len() {
            slice_subrange(m, k + 1, m.len())
        } else {
            slice_subrange(m, k, k)
        };
        assert(ip@ =~= int_digits(text@));
        assert(fp@ =~= frac_digits(text@));
        if !is_all_digits(ip) || !is_all_digits(fp) {
            return None;
        }
        if ip.len() == 0 && fp.len() == 0 {
            return None;
        }
        let exponent: i64 = if mark < body.len() {
            let t: &[u8] = slice_subrange(body, mark + 1, body.len());
            assert(exponent_text(text@) == Some(t@));
            match read_exponent(t) {
                Some(e) => e,
                None => {
                    return None;
                },
            }
        } else {
            0
        };
        let cut: i128 = ip.len() as i128 + exponent as i128 + 9;
        let magnitude: u64 = shifted_digits(ip, fp, cut);
        if negative {
            Some(Number::Finite { nanos: 0 - (magnitude as i64) })
        } else {
            Some(Number::Finite { nanos: magnitude as i64 })
        }
    }
}

/// The digits of a fraction of `f` billionths whose next digit weighs
/// `weight` billionths, without the zeros at its end.
pub open spec fn frac_chars(f: nat, weight: nat) -> Seq<char>
    decreases weight,
{
    if f == 0 || weight == 0 {
        Seq::empty()
    } else {
        seq![digit_char(f / weight)] + frac_chars(f % weight, weight / 10)
    }
}

/// The notation of a number of billionths that is not negative: the whole
/// part and, where there is a fraction, a point and its digits.
pub open spec fn magnitude_chars(m: nat) -> Seq<char> {
    if m % 1_000_000_000 == 0 {
        decimal_chars(m / 1_000_000_000)
    } else {
        decimal_chars(m / 1_000_000_000) + "."@ + frac_chars(m % 1_000_000_000, 100_000_000)
    }
}

/// The notation of a number.
pub open spec fn number_chars(n: Number) -> Seq<char> {
    match n {
        Number::Finite { nanos } => if nanos < 0 {
            "-"@ + magnitude_chars((-nanos) as nat)
        } else {
            magnitude_chars(nanos as nat)
        },
        Number::NaN => "NaN"@,
        Number::Infinite { negative } => if negative {
            "-inf"@
        } else {
            "inf"@
        },
    }
}

fn push_fraction(out: &mut String, frac: u64)
    requires
        frac < 1_000_000_000,
    ensures
        final(out)@ == old(out)@ + frac_chars(frac as nat, 100_000_000),
{
    let mut f: u64 = frac;
    let mut weight: u64 = 100_000_000;
    assert(out@ + frac_chars(f as nat, weight as nat) =~= old(out)@ + frac_chars(
        frac as nat,
        100_000_000,
    ));
    while f != 0 && weight != 0
        invariant
            f < 10 * weight || weight == 0,
            weight == 100_000_000 || weight == 10_000_000 || weight == 1_000_000 || weight
                == 100_000 || weight == 10_000 || weight == 1_000 || weight == 100 || weight
                == 10 || weight == 1 || weight == 0,
            out@ + frac_chars(f as nat, weight as nat) == old(out)@ + frac_chars(
                frac as nat,
                100_000_000,
            ),
        decreases weight,
    {
        let d: u64 = f / weight;
        let ghost before = out@;
        proof {
            assert(d < 10) by (nonlinear_arith)
                requires
                    d == f / weight,
                    f < 10 * weight,
                    weight > 0,
            ;
            assert(f % weight < weight);
        }
        out.append(digit_text(d));
        proof {
            assert(out@ + frac_chars((f % weight) as nat, (weight / 10) as nat) =~= before
                + frac_chars(f as nat, weight as nat));
            if weight / 10 > 0 {
                assert(f % weight < 10 * (weight / 10));
            }
        }
        f = f % weight;
        weight = weight / 10;
    }
    assert(frac_chars(f as nat, weight as nat) =~= Seq::<char>::empty());
    assert(out@ + Seq::<char>::empty() =~= out@);
}

impl Number {
    /// Writes the number in decimal notation.
    pub fn to_text(&self) -> (r: String)
        ensures
            r@ == number_chars(*self),
    {
        match self {
            Number::NaN => String::from_str("NaN"),
            Number::Infinite { negative } => if *negative {
                String::from_str("-inf")
            } else {
                String::from_str("inf")
            },
            Number::Finite { nanos } => {
                let mut out = String::new();
                let m: u64 = if *nanos < 0 {
                    out.append("-");
                    ((0 - (*nanos as i128)) as u64)
                } else {
                    *nanos as u64
                };
                push_decimal(&mut out, m / 1_000_000_000);
                if m % 1_000_000_000 != 0 {
                    out.append(".");
                    push_fraction(&mut out, m % 1_000_000_000);
                }
                proof {
                    if *nanos < 0 {
                        assert(out@ =~= "-"@ + magnitude_chars(m as nat));
                    } else {
                        assert(out@ =~= magnitude_chars(m as nat));
                    }
                }
                out
            },
        }
    }
}

} // verus!
