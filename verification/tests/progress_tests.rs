use necd_core::progress::parse_progress;

#[test]
fn marker_with_decimal_percent() {
    let r = parse_progress("[DOWNLOADING]:  42.5%");
    assert_eq!(r, Some("42.5".to_string()));
    assert_eq!(r.unwrap().parse::<f64>().unwrap(), 42.5);
}

#[test]
fn marker_with_non_numeric_text() {
    assert_eq!(parse_progress("[DOWNLOADING]:abc%"), None);
}

#[test]
fn line_without_marker() {
    assert_eq!(parse_progress("downloading 42.5% of the file"), None);
}

#[test]
fn marker_with_integer_percent() {
    assert_eq!(parse_progress("[DOWNLOADING]: 100%"), Some("100".to_string()));
}

#[test]
fn marker_without_percent_sign() {
    assert_eq!(parse_progress("[DOWNLOADING]:  42.5"), None);
}

#[test]
fn marker_with_only_percent_sign() {
    assert_eq!(parse_progress("[DOWNLOADING]:  %"), None);
    assert_eq!(parse_progress("[DOWNLOADING]:"), None);
}

#[test]
fn signed_and_dotted_numerals() {
    assert_eq!(parse_progress("[DOWNLOADING]: +7.%"), Some("+7.".to_string()));
    assert_eq!(parse_progress("[DOWNLOADING]: .5%"), Some(".5".to_string()));
    assert_eq!(parse_progress("[DOWNLOADING]: -0.5%"), Some("-0.5".to_string()));
    assert_eq!(parse_progress("[DOWNLOADING]: 1.2.3%"), None);
    assert_eq!(parse_progress("[DOWNLOADING]: .%"), None);
    assert_eq!(parse_progress("[DOWNLOADING]: +%"), None);
}

#[test]
fn inner_whitespace_is_not_a_numeral() {
    assert_eq!(parse_progress("[DOWNLOADING]: 50 %"), None);
}

#[test]
fn text_before_marker_is_ignored() {
    assert_eq!(parse_progress("frag 3/7 [DOWNLOADING]:  12.0%"), Some("12.0".to_string()));
}

#[test]
fn second_marker_ends_the_token() {
    assert_eq!(
        parse_progress("[DOWNLOADING]: 50%[DOWNLOADING]: 60%"),
        Some("50".to_string())
    );
}

#[test]
fn unicode_whitespace_is_trimmed() {
    assert_eq!(parse_progress("[DOWNLOADING]:\u{3000}9.9%\u{00A0}"), Some("9.9".to_string()));
}
