use srotas_desk::money::{amount_fits_in_paise, format_paise, format_paise_ascii, paise_to_input, rupees_to_paise};

#[test]
fn parses_whole_and_fractional_rupees() {
    assert_eq!(rupees_to_paise("80"), Some(8000));
    assert_eq!(rupees_to_paise("80.5"), Some(8050));
    assert_eq!(rupees_to_paise("80.50"), Some(8050));
    assert_eq!(rupees_to_paise(".5"), Some(50));
    assert_eq!(rupees_to_paise(""), None);
    assert_eq!(rupees_to_paise("80.555"), None);
    assert_eq!(rupees_to_paise("abc"), None);
}

#[test]
fn formats_paise_as_rupees() {
    assert_eq!(format_paise(8050), "₹80.50");
    assert_eq!(format_paise(8000), "₹80.00");
    assert_eq!(format_paise(-15050), "-₹150.50");
    assert_eq!(format_paise(0), "₹0.00");
}

#[test]
fn surrounding_whitespace_and_a_trailing_point_are_accepted() {
    assert_eq!(rupees_to_paise("  120.00\t"), Some(12000));
    assert_eq!(rupees_to_paise("80."), Some(8000));
    assert_eq!(rupees_to_paise("."), None);
    assert_eq!(rupees_to_paise("1.2.3"), None);
    assert_eq!(rupees_to_paise("-5"), None);
    assert_eq!(rupees_to_paise("0.05"), Some(5));
}

#[test]
fn a_whole_part_too_large_for_i64_is_rejected() {
    assert_eq!(rupees_to_paise("99999999999999999999"), None);
}

#[test]
fn input_text_round_trips_through_the_parser() {
    for p in [0i64, 5, 50, 99, 100, 8050, 123456789] {
        assert_eq!(rupees_to_paise(&paise_to_input(p)), Some(p), "{p}");
    }
}

#[test]
fn input_text_is_the_format_without_the_rupee_sign() {
    assert_eq!(paise_to_input(8050), "80.50");
    assert_eq!(paise_to_input(5), "0.05");
    assert_eq!(paise_to_input(1800), "18.00");
    assert_eq!(paise_to_input(-15050), "-150.50");
    assert_eq!(paise_to_input(-5), "-0.05");
    assert_eq!(paise_to_input(-100), "-1.00");
    assert_eq!(paise_to_input(i64::MIN), "-92233720368547758.08");
    assert_eq!(rupees_to_paise(&paise_to_input(-15050)), None);
}

#[test]
fn ascii_format_uses_an_rs_prefix() {
    assert_eq!(format_paise_ascii(8050), "Rs. 80.50");
    assert_eq!(format_paise_ascii(-15050), "-Rs. 150.50");
    assert_eq!(format_paise_ascii(i64::MIN), "-Rs. 92233720368547758.08");
}

#[test]
fn amounts_are_tested_against_i64_before_parsing() {
    assert!(amount_fits_in_paise("80.50"));
    assert!(amount_fits_in_paise("92233720368547758.07"));
    assert!(!amount_fits_in_paise("92233720368547758.08"));
    assert!(!amount_fits_in_paise(" 92233720368547759 "));
    assert!(amount_fits_in_paise("not an amount"));
    assert!(amount_fits_in_paise("99999999999999999999"));
    assert_eq!(rupees_to_paise("92233720368547758.07"), Some(i64::MAX));
}
