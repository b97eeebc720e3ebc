use lifx_api_server::number::Number;
use lifx_api_server::text::{contains, starts_with, trim};

fn nanos(n: i64) -> Number {
    Number::from_nanos(n)
}

#[test]
fn test_number_parse_grammar() {
    assert_eq!(Number::parse(b"1"), Some(nanos(1_000_000_000)));
    assert_eq!(Number::parse(b"+1.5"), Some(nanos(1_500_000_000)));
    assert_eq!(Number::parse(b"-1.5"), Some(nanos(-1_500_000_000)));
    assert_eq!(Number::parse(b".5"), Some(nanos(500_000_000)));
    assert_eq!(Number::parse(b"5."), Some(nanos(5_000_000_000)));
    assert_eq!(Number::parse(b"0.000000001"), Some(nanos(1)));
    assert_eq!(Number::parse(b"0.0000000019"), Some(nanos(1)));
    assert_eq!(Number::parse(b"0.1234567891234"), Some(nanos(123_456_789)));
    assert_eq!(Number::parse(b"007"), Some(nanos(7_000_000_000)));
    assert_eq!(Number::parse(b"-0"), Some(nanos(0)));
    assert_eq!(Number::parse(b"9223372036.854775807"), Some(nanos(i64::MAX)));
    assert_eq!(Number::parse(b"9223372036.854775808"), Some(nanos(i64::MAX)));
    assert_eq!(Number::parse(b"99999999999999999999999"), Some(nanos(i64::MAX)));
    assert_eq!(Number::parse(b"-99999999999999999999999"), Some(nanos(-i64::MAX)));
    for text in [
        "", ".", "+", "-", "+.", "1..2", "1.2.3", " 1", "1 ", "0x10", "1,5", "--1", "1e", "e1",
        "1e+", "1e-", "1e1.5", "1e1e1", ".e1", "1e 1", "infinit", "in", "nanx", "i", "+-inf",
    ] {
        assert_eq!(Number::parse(text.as_bytes()), None, "text {:?}", text);
    }
}

#[test]
fn test_number_parse_exponent() {
    assert_eq!(Number::parse(b"1e3"), Some(nanos(1_000_000_000_000)));
    assert_eq!(Number::parse(b"1E3"), Some(nanos(1_000_000_000_000)));
    assert_eq!(Number::parse(b"1e+3"), Some(nanos(1_000_000_000_000)));
    assert_eq!(Number::parse(b"1e2"), Some(nanos(100_000_000_000)));
    assert_eq!(Number::parse(b"1e0"), Some(nanos(1_000_000_000)));
    assert_eq!(Number::parse(b"1e-3"), Some(nanos(1_000_000)));
    assert_eq!(Number::parse(b"-2.5e-1"), Some(nanos(-250_000_000)));
    assert_eq!(Number::parse(b"1.5e1"), Some(nanos(15_000_000_000)));
    assert_eq!(Number::parse(b".5e1"), Some(nanos(5_000_000_000)));
    assert_eq!(Number::parse(b"5.e1"), Some(nanos(50_000_000_000)));
    assert_eq!(Number::parse(b"123456789e-9"), Some(nanos(123_456_789)));
    assert_eq!(Number::parse(b"1234567891e-10"), Some(nanos(123_456_789)));
    assert_eq!(Number::parse(b"1e-9"), Some(nanos(1)));
    assert_eq!(Number::parse(b"1e-10"), Some(nanos(0)));
    assert_eq!(Number::parse(b"9e-10"), Some(nanos(0)));
    assert_eq!(Number::parse(b"0.001e3"), Some(nanos(1_000_000_000)));
    assert_eq!(Number::parse(b"1000e-3"), Some(nanos(1_000_000_000)));
    assert_eq!(Number::parse(b"9223372036854775807e-9"), Some(nanos(i64::MAX)));
    assert_eq!(Number::parse(b"9223372036854775806e-9"), Some(nanos(i64::MAX - 1)));
    assert_eq!(Number::parse(b"1e30"), Some(nanos(i64::MAX)));
    assert_eq!(Number::parse(b"-1e30"), Some(nanos(-i64::MAX)));
    assert_eq!(Number::parse(b"0e30"), Some(nanos(0)));
    assert_eq!(Number::parse(b"0e99999999999999999999"), Some(nanos(0)));
    assert_eq!(Number::parse(b"1e99999999999999999999"), Some(nanos(i64::MAX)));
    assert_eq!(Number::parse(b"1e-99999999999999999999"), Some(nanos(0)));
    assert_eq!(Number::parse(b"1e4294967295"), Some(nanos(i64::MAX)));
    assert_eq!(Number::parse(b"1e-4294967295"), Some(nanos(0)));
}

#[test]
fn test_number_parse_not_finite() {
    assert_eq!(Number::parse(b"inf"), Some(Number::Infinite { negative: false }));
    assert_eq!(Number::parse(b"+inf"), Some(Number::Infinite { negative: false }));
    assert_eq!(Number::parse(b"-INF"), Some(Number::Infinite { negative: true }));
    assert_eq!(Number::parse(b"Infinity"), Some(Number::Infinite { negative: false }));
    assert_eq!(Number::parse(b"-infinity"), Some(Number::Infinite { negative: true }));
    assert_eq!(Number::parse(b"NaN"), Some(Number::NaN));
    assert_eq!(Number::parse(b"nan"), Some(Number::NaN));
    assert_eq!(Number::parse(b"-nan"), Some(Number::NaN));
}

#[test]
fn test_number_conversions() {
    assert_eq!(nanos(600_000_000).to_level(), 39321);
    assert_eq!(nanos(750_000_000).to_level(), 49151);
    assert_eq!(nanos(1).to_level(), 0);
    assert_eq!(nanos(-5).to_level(), 0);
    assert_eq!(nanos(2_000_000_000).to_level(), 65535);
    assert_eq!(nanos(i64::MAX).to_level(), 65535);
    assert_eq!(Number::NaN.to_level(), 0);
    assert_eq!(Number::Infinite { negative: false }.to_level(), 65535);
    assert_eq!(Number::Infinite { negative: true }.to_level(), 0);

    assert_eq!(Number::from_units(180).to_wrapped_hue(), 32768);
    assert_eq!(Number::from_units(360).to_wrapped_hue(), 0);
    assert_eq!(Number::from_units(120).to_wrapped_hue(), 21845);
    assert_eq!(Number::from_nanos(359_999_000_000).to_wrapped_hue(), 65535);
    assert_eq!(Number::from_nanos(-1).to_wrapped_hue(), 0);
    assert_eq!(Number::from_units(361).to_wrapped_hue(), 182);
    assert_eq!(Number::from_units(720).to_wrapped_hue(), 0);

    assert_eq!(nanos(2_999_999_999).to_seconds(), 2);
    assert_eq!(nanos(-1).to_seconds(), 0);
    assert_eq!(nanos(i64::MAX).to_seconds(), 4_294_967_295);
    assert_eq!(Number::from_units(3_155_760_000).to_seconds(), 3_155_760_000);
    assert_eq!(nanos(100_000_000).to_millis(), 100);
    assert_eq!(nanos(1_999_999).to_millis(), 1);
    assert_eq!(Number::Infinite { negative: false }.to_millis(), u32::MAX);

    assert!(nanos(0).is_finite());
    assert!(!Number::NaN.is_finite());
    assert!(nanos(5).is_between(0, 5));
    assert!(!nanos(6).is_between(0, 5));
    assert!(!Number::NaN.is_between(i64::MIN, i64::MAX));
    assert_eq!(nanos(-1).clamp_unit(), 0);
    assert_eq!(nanos(1_000_000_001).clamp_unit(), 1_000_000_000);
}

#[test]
fn test_number_text() {
    assert_eq!(nanos(0).to_text(), "0");
    assert_eq!(nanos(1_500_000_000).to_text(), "1.5");
    assert_eq!(nanos(-100_000_000).to_text(), "-0.1");
    assert_eq!(nanos(2_000_000_000).to_text(), "2");
    assert_eq!(nanos(1).to_text(), "0.000000001");
    assert_eq!(nanos(1_000_000_010).to_text(), "1.00000001");
    assert_eq!(nanos(3_155_760_001_000_000_000).to_text(), "3155760001");
    assert_eq!(nanos(i64::MIN).to_text(), "-9223372036.854775808");
    assert_eq!(Number::NaN.to_text(), "NaN");
    assert_eq!(Number::Infinite { negative: false }.to_text(), "inf");
    assert_eq!(Number::Infinite { negative: true }.to_text(), "-inf");
}

#[test]
fn test_byte_text_primitives() {
    assert!(contains(b"Kitchen", b"itch"));
    assert!(contains(b"Kitchen", b""));
    assert!(contains(b"", b""));
    assert!(contains(b"Kitchen", b"Kitchen"));
    assert!(!contains(b"Kitchen", b"Kitchens"));
    assert!(!contains(b"Kitchen", b"kit"));
    assert!(contains("Küche".as_bytes(), "ü".as_bytes()));
    assert!(starts_with(b"label:x", b"label:"));
    assert!(!starts_with(b"labe", b"label:"));
    assert_eq!(trim(b"  a b \t\n"), b"a b");
    assert_eq!(trim(b" \r "), b"");
    assert_eq!(trim(b"x"), b"x");
}
