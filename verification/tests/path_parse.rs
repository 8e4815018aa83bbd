use seed_flow::contracts::{HARDENED_OFFSET, MAX_DEPTH};
use seed_flow::path_parse::{parse_path, PathParseError};

fn parse(s: &str) -> Result<([u32; MAX_DEPTH], usize), PathParseError> {
    let mut out = [0u32; MAX_DEPTH];
    parse_path(s, &mut out).map(|len| (out, len))
}

const PATH_BIP44: [u32; 5] = [HARDENED_OFFSET + 44, HARDENED_OFFSET, HARDENED_OFFSET, 0, 0];
const PATH_BIP49: [u32; 5] = [HARDENED_OFFSET + 49, HARDENED_OFFSET, HARDENED_OFFSET, 0, 0];
const PATH_BIP84: [u32; 5] = [HARDENED_OFFSET + 84, HARDENED_OFFSET, HARDENED_OFFSET, 0, 0];
const PATH_BIP86: [u32; 5] = [HARDENED_OFFSET + 86, HARDENED_OFFSET, HARDENED_OFFSET, 0, 0];

#[test]
fn presets_round_trip_to_the_frozen_constants() {
    let cases: [(&str, [u32; 5]); 4] = [
        ("m/44'/0'/0'/0/0", PATH_BIP44),
        ("m/49'/0'/0'/0/0", PATH_BIP49),
        ("m/84'/0'/0'/0/0", PATH_BIP84),
        ("m/86'/0'/0'/0/0", PATH_BIP86),
    ];
    for (s, expected) in cases {
        let (out, len) = parse(s).unwrap_or_else(|e| panic!("{s:?} should parse, got {e:?}"));
        assert_eq!(&out[..len], &expected, "{s:?} did not round-trip");
    }
}

#[test]
fn accepts_h_and_upper_h_hardened_markers() {
    let (out, len) = parse("m/84h/0H/0h/1/7").unwrap();
    assert_eq!(len, 5);
    assert_eq!(&out[..len], &[HARDENED_OFFSET + 84, HARDENED_OFFSET, HARDENED_OFFSET, 1, 7]);
}

#[test]
fn accepts_single_element_and_max_values() {
    let (out, len) = parse("m/0").unwrap();
    assert_eq!((len, out[0]), (1, 0));
    let (out, _) = parse("m/2147483647'").unwrap();
    assert_eq!(out[0], u32::MAX);
    let (out, _) = parse("m/2147483647").unwrap();
    assert_eq!(out[0], HARDENED_OFFSET - 1);
}

#[test]
fn accepts_full_max_depth_ten() {
    let (_, len) = parse("m/1/2/3/4/5/6/7/8/9/10").unwrap();
    assert_eq!(len, MAX_DEPTH);
}

#[test]
fn leading_zeros_parse_to_their_value() {
    assert_eq!(parse("m/00'").unwrap().0[0], HARDENED_OFFSET);
    assert_eq!(parse("m/007").unwrap().0[0], 7);
}

#[test]
fn r1_empty_string() {
    assert_eq!(parse(""), Err(PathParseError::Empty));
}

#[test]
fn r2_whitespace_anywhere() {
    for s in [" m/0", "m/0 ", "m/ 0", "m/0/ 1", "m/0\t1", "m/0\n"] {
        assert_eq!(parse(s), Err(PathParseError::Whitespace), "{s:?}");
    }
}

#[test]
fn r3_lone_m_with_no_element() {
    assert_eq!(parse("m"), Err(PathParseError::Empty));
}

#[test]
fn r4_trailing_slash() {
    assert_eq!(parse("m/44'/"), Err(PathParseError::EmptySegment));
}

#[test]
fn r5_leading_slash_or_missing_m() {
    assert_eq!(parse("/44'/0'"), Err(PathParseError::MissingMasterPrefix));
    assert_eq!(parse("44'/0'"), Err(PathParseError::MissingMasterPrefix));
}

#[test]
fn r6_double_or_empty_segment() {
    assert_eq!(parse("m//0'"), Err(PathParseError::EmptySegment));
    assert_eq!(parse("m/44'//0"), Err(PathParseError::EmptySegment));
}

#[test]
fn r7_uppercase_m_prefix() {
    assert_eq!(parse("M/0"), Err(PathParseError::MissingMasterPrefix));
}

#[test]
fn r8_non_digit_stray_character_in_a_number() {
    assert_eq!(parse("m/4a4/0"), Err(PathParseError::BadDigit));
    assert_eq!(parse("m/0x2c"), Err(PathParseError::BadDigit));
}

#[test]
fn r9_missing_number_before_a_marker() {
    assert_eq!(parse("m/'"), Err(PathParseError::MissingNumber));
    assert_eq!(parse("m/44'/'"), Err(PathParseError::MissingNumber));
}

#[test]
fn r10_stray_misplaced_or_duplicated_marker() {
    assert_eq!(parse("m/'44"), Err(PathParseError::BadMarker));
    assert_eq!(parse("m/44''"), Err(PathParseError::BadMarker));
    assert_eq!(parse("m/44'0"), Err(PathParseError::BadMarker));
    assert_eq!(parse("m/44/'0"), Err(PathParseError::BadMarker));
}

#[test]
fn r11_numeric_overflow_rejects_not_wraps() {
    assert_eq!(parse("m/4294967296"), Err(PathParseError::NumberOverflow));
    assert_eq!(parse("m/999999999999999999999999"), Err(PathParseError::NumberOverflow));
}

#[test]
fn r12_number_at_or_above_2_pow_31_collides_with_hardened_bit() {
    assert_eq!(parse("m/2147483648"), Err(PathParseError::NumberTooLarge));
    assert_eq!(parse("m/2147483648'"), Err(PathParseError::NumberTooLarge));
}

#[test]
fn r13_marker_other_than_apostrophe_h_or_upper_h() {
    assert_eq!(parse("m/44p"), Err(PathParseError::BadMarker));
    assert_eq!(parse("m/44'H"), Err(PathParseError::BadMarker));
}

#[test]
fn r14_depth_greater_than_max_depth() {
    assert_eq!(parse("m/0/0/0/0/0/0/0/0/0/0/0"), Err(PathParseError::TooDeep));
}

#[test]
fn never_panics_on_adversarial_input() {
    for s in ["m/\u{2074}", "m/44\u{2019}", "\u{00ff}", "m/", "m///", "mmmm", "m/-1", "m/+3", "m/1.5"] {
        let _ = parse(s);
    }
}

#[test]
fn every_error_has_a_nonempty_reason() {
    for e in [
        PathParseError::Empty,
        PathParseError::Whitespace,
        PathParseError::MissingMasterPrefix,
        PathParseError::EmptySegment,
        PathParseError::BadDigit,
        PathParseError::MissingNumber,
        PathParseError::BadMarker,
        PathParseError::NumberOverflow,
        PathParseError::NumberTooLarge,
        PathParseError::TooDeep,
    ] {
        assert!(!e.reason().is_empty());
    }
}

#[test]
fn parse_leaves_the_slots_past_the_path_untouched() {
    let mut out = [7u32; MAX_DEPTH];
    assert_eq!(parse_path("m/1/2h", &mut out), Ok(2));
    assert_eq!(out[0], 1);
    assert_eq!(out[1], 2 + HARDENED_OFFSET);
    assert!(out[2..].iter().all(|&v| v == 7));
}
