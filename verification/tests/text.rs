use bore_cli::text::{decimal_string, has_char, parse_octet, split_at_char};

#[test]
fn every_octet_reads_back() {
    for n in 0..=255u8 {
        assert_eq!(parse_octet(&decimal_string(n as u16)), Some(n));
    }
}

#[test]
fn decimal_has_no_leading_zeros() {
    assert_eq!(decimal_string(0), "0");
    assert_eq!(decimal_string(1024), "1024");
    assert_eq!(decimal_string(65535), "65535");
}

#[test]
fn octets_read_as_numbers_of_eight_bits_do() {
    for s in ["", "+", "-", "0", "+0", "-0", "007", "255", "256", "+255", "99999999999", "1 ", "1a", "++1"] {
        assert_eq!(parse_octet(s), s.parse::<u8>().ok());
    }
}

#[test]
fn splitting_keeps_empty_pieces() {
    for s in ["", ".", "a", "a.b", ".a.", "1.2.3.4", "ä.ö"] {
        let parts: Vec<&str> = s.split('.').collect();
        assert_eq!(split_at_char(s, '.'), parts);
        assert_eq!(split_at_char(s, '.').join("."), s);
    }
}

#[test]
fn finding_a_character() {
    assert!(has_char("a-b", '-'));
    assert!(!has_char("a_b", '-'));
    assert!(!has_char("", '-'));
}
