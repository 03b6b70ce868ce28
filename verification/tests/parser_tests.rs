use rustorch::digit_pattern;
use rustorch::parse;

#[test]
fn test_parse_normal() {
    assert_eq!(
        parse(&"0123".to_string()),
        Some([
            digit_pattern(0),
            digit_pattern(1),
            digit_pattern(2),
            digit_pattern(3),
        ])
    );
    assert_eq!(
        parse(&" 456".to_string()),
        Some([0x00, digit_pattern(4), digit_pattern(5), digit_pattern(6)])
    );
    assert_eq!(
        parse(&"789 ".to_string()),
        Some([digit_pattern(7), digit_pattern(8), digit_pattern(9), 0x00])
    );
    assert_eq!(
        parse(&"1".to_string()),
        Some([digit_pattern(1), 0x00, 0x00, 0x00])
    );
    assert_eq!(
        parse(&"123".to_string()),
        Some([digit_pattern(1), digit_pattern(2), digit_pattern(3), 0x00])
    );
    assert_eq!(parse(&" . . . .".to_string()), Some([0x01, 0x01, 0x01, 0x01]));
    assert_eq!(
        parse(&"1.2.3.4.".to_string()),
        Some([
            digit_pattern(1) | 0x01,
            digit_pattern(2) | 0x01,
            digit_pattern(3) | 0x01,
            digit_pattern(4) | 0x01,
        ])
    );
    assert_eq!(
        parse(&"99.99".to_string()),
        Some([
            digit_pattern(9),
            digit_pattern(9) | 0x01,
            digit_pattern(9),
            digit_pattern(9),
        ])
    );
    assert_eq!(parse(&"    ".to_string()), Some([0x00, 0x00, 0x00, 0x00]));
}

#[test]
fn test_parse_abnormal() {
    // unsupported character
    assert_eq!(parse(&"x".to_string()), None);
    // a leading dot has no digit to attach to
    assert_eq!(parse(&".123".to_string()), None);
    // doubled dots are rejected
    assert_eq!(parse(&"12..34".to_string()), None);
}

#[test]
fn parse_empty_text_gives_blank_frame() {
    assert_eq!(parse(&"".to_string()), Some([0x00, 0x00, 0x00, 0x00]));
}

#[test]
fn parse_dot_on_last_position() {
    assert_eq!(
        parse(&"9999.".to_string()),
        Some([
            digit_pattern(9),
            digit_pattern(9),
            digit_pattern(9),
            digit_pattern(9) | 0x01,
        ])
    );
}

#[test]
fn parse_too_many_digits_is_rejected() {
    assert_eq!(parse(&"12345".to_string()), None);
}

#[test]
fn parse_extra_spaces_past_the_display_are_kept_blank() {
    assert_eq!(parse(&"     ".to_string()), Some([0x00, 0x00, 0x00, 0x00]));
}

#[test]
fn parse_dot_after_space_marks_the_blank_position() {
    assert_eq!(parse(&"1 .2".to_string()), Some([digit_pattern(1), 0x01, digit_pattern(2), 0x00]));
}

#[test]
fn digit_patterns_match_the_segment_table() {
    let expected: [u8; 10] = [0xFC, 0x60, 0xDA, 0xF2, 0x66, 0xB6, 0xBE, 0xE4, 0xFE, 0xF6];
    for d in 0..10u8 {
        assert_eq!(digit_pattern(d), expected[d as usize]);
    }
}
