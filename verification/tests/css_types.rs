use css_contrast::{is_percentage, percentage_number, with_percent_sign};

#[test]
fn is_percentage_looks_at_the_last_character() {
    assert!(is_percentage("60%"));
    assert!(is_percentage("%"));
    assert!(is_percentage("abc%"));
    assert!(is_percentage("12.5e3%"));
    assert!(is_percentage("%%"));
}

#[test]
fn is_percentage_rejects_other_endings() {
    assert!(!is_percentage(""));
    assert!(!is_percentage("60"));
    assert!(!is_percentage("60% "));
    assert!(!is_percentage("%60"));
}

#[test]
fn is_percentage_counts_characters_not_bytes() {
    assert!(is_percentage("é%"));
    assert!(!is_percentage("%é"));
    assert!(!is_percentage("٪"));
}

#[test]
fn percentage_number_is_the_text_before_the_sign() {
    assert_eq!(percentage_number("60%"), "60");
    assert_eq!(percentage_number("-12.5%"), "-12.5");
    assert_eq!(percentage_number("%"), "");
    assert_eq!(percentage_number("5%%"), "5%");
    assert_eq!(percentage_number("é%"), "é");
}

#[test]
fn with_percent_sign_appends_the_sign() {
    assert_eq!(with_percent_sign("60"), "60%");
    assert_eq!(with_percent_sign(""), "%");
    assert_eq!(with_percent_sign("-0.5"), "-0.5%");
}

#[test]
fn percent_sign_round_trip() {
    for number in ["60", "0.25", "", "1e3", "é"] {
        let text = with_percent_sign(number);
        assert!(is_percentage(&text));
        assert_eq!(percentage_number(&text), number);
    }
}
