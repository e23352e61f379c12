use libc::{c_char, c_long};
use trans2quik::codec::{decode_c_buffer, decode_lpstr, parse_date, parse_time, zero_padded_decimal};
use trans2quik::errors::{DateTimeError, DecodeLpstrError};

#[test]
fn decode_c_buffer_stops_at_nul() {
    let buf = [b'A' as c_char, b'B' as c_char, 0, b'X' as c_char];
    assert_eq!(decode_c_buffer(&buf), "AB");
}

#[test]
fn parse_date_accepts_yyyymmdd() {
    let date = parse_date(20250331).expect("date must parse");
    assert_eq!(date.to_string(), "2025-03-31");
}

#[test]
fn parse_time_accepts_hhmmss() {
    let time = parse_time(93005).expect("time must parse");
    assert_eq!(time.to_string(), "09:30:05");
}

#[test]
fn decode_c_buffer_without_nul_reads_whole_buffer() {
    let buf = [b'S' as c_char, b'B' as c_char, b'E' as c_char, b'R' as c_char];
    assert_eq!(decode_c_buffer(&buf), "SBER");
}

#[test]
fn decode_c_buffer_of_leading_nul_is_empty() {
    let buf = [0 as c_char, b'A' as c_char];
    assert_eq!(decode_c_buffer(&buf), "");
    assert_eq!(decode_c_buffer(&[]), "");
}

#[test]
fn decode_c_buffer_decodes_cyrillic() {
    // "Привет" in windows-1251, followed by NUL and garbage.
    let bytes: [u8; 8] = [0xCF, 0xF0, 0xE8, 0xE2, 0xE5, 0xF2, 0x00, 0xFF];
    let buf: Vec<c_char> = bytes.iter().map(|&b| b as c_char).collect();
    assert_eq!(decode_c_buffer(&buf), "Привет");
}

#[test]
fn decode_lpstr_null_pointer_is_an_error() {
    assert!(matches!(decode_lpstr(None), Err(DecodeLpstrError::NullPointer)));
}

#[test]
fn decode_lpstr_decodes_windows_1251() {
    let bytes: [u8; 4] = [0xD2, 0xD0, 0xC0, 0xCA];
    assert_eq!(decode_lpstr(Some(&bytes)).unwrap(), "ТРАК");
    assert_eq!(decode_lpstr(Some(b"TQBR")).unwrap(), "TQBR");
    assert_eq!(decode_lpstr(Some(b"")).unwrap(), "");
}

#[test]
fn decode_lpstr_reads_byte_order_marks_as_windows_1251() {
    // EF BB BF is «п»ї» in windows-1251, not a UTF-8 byte order mark.
    let bytes: [u8; 4] = [0xEF, 0xBB, 0xBF, 0xFF];
    assert_eq!(decode_lpstr(Some(&bytes)).unwrap(), "п»їя");
    // FF FE and FE FF are «яю» and «юя», not UTF-16 byte order marks.
    assert_eq!(decode_lpstr(Some(&[0xFF, 0xFE])).unwrap(), "яю");
    assert_eq!(decode_lpstr(Some(&[0xFE, 0xFF])).unwrap(), "юя");
}

#[test]
fn decode_lpstr_never_fails_on_a_string() {
    let all: Vec<u8> = (1..=255u8).collect();
    let text = decode_lpstr(Some(&all)).unwrap();
    assert_eq!(text.chars().count(), all.len());
    assert_eq!(decode_lpstr(Some(&[0x98])).unwrap(), "\u{98}");
}

#[test]
fn decode_c_buffer_reads_byte_order_marks_as_windows_1251() {
    let buf = [0xFFu8 as c_char, 0xFEu8 as c_char, 0];
    assert_eq!(decode_c_buffer(&buf), "яю");
    let buf = [0xEFu8 as c_char, 0xBBu8 as c_char, 0xBFu8 as c_char, 0, 0x41];
    assert_eq!(decode_c_buffer(&buf), "п»ї");
    assert_eq!(decode_c_buffer(&[0, 0, 0]), "");
}

#[test]
fn parse_date_rejects_non_positive_numbers() {
    assert!(matches!(parse_date(0), Err(DateTimeError::InvalidDate)));
    assert!(matches!(parse_date(-20250331), Err(DateTimeError::InvalidDate)));
}

#[test]
fn parse_date_rejects_numbers_beyond_i32() {
    let too_big: i64 = i32::MAX as i64 + 1;
    if let Ok(value) = c_long::try_from(too_big) {
        assert!(matches!(parse_date(value), Err(DateTimeError::InvalidDate)));
    }
}

#[test]
fn parse_date_reports_impossible_dates() {
    assert!(matches!(parse_date(20250231), Err(DateTimeError::ParseError(_))));
    assert!(matches!(parse_date(20251301), Err(DateTimeError::ParseError(_))));
}

#[test]
fn parse_date_pads_short_numbers() {
    // 1010101 is read as 0101-01-01.
    let date = parse_date(1010101).expect("date must parse");
    assert_eq!(date.to_string(), "0101-01-01");
}

#[test]
fn parse_time_reads_midnight_and_end_of_day() {
    assert!(matches!(parse_time(0), Err(DateTimeError::InvalidTime)));
    assert_eq!(parse_time(1).unwrap().to_string(), "00:00:01");
    assert_eq!(parse_time(235959).unwrap().to_string(), "23:59:59");
}

#[test]
fn parse_time_reports_impossible_times() {
    assert!(matches!(parse_time(-5), Err(DateTimeError::InvalidTime)));
    assert!(matches!(parse_time(246000), Err(DateTimeError::ParseError(_))));
    assert!(matches!(parse_time(126100), Err(DateTimeError::ParseError(_))));
}

#[test]
fn zero_padded_decimal_pads_to_width() {
    let text: String = zero_padded_decimal(93005, 6).into_iter().collect();
    assert_eq!(text, "093005");
    let text: String = zero_padded_decimal(20250331, 8).into_iter().collect();
    assert_eq!(text, "20250331");
    let text: String = zero_padded_decimal(1234567, 3).into_iter().collect();
    assert_eq!(text, "1234567");
    let text: String = zero_padded_decimal(0, 2).into_iter().collect();
    assert_eq!(text, "00");
}

#[test]
fn decode_lpstr_maps_every_high_byte_through_the_table() {
    assert_eq!(decode_lpstr(Some(&[0xFF])).unwrap(), "я");
    assert_eq!(decode_lpstr(Some(&[0xC0, 0xDF, 0xA8, 0xB8])).unwrap(), "АЯЁё");
    assert_eq!(decode_lpstr(Some(&[0x80, 0x88, 0xB9])).unwrap(), "Ђ€№");
}
