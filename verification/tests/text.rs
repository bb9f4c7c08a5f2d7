use tesseract_shim::decimal::i32_to_decimal;
use tesseract_shim::decimal::u32_to_decimal;
use tesseract_shim::lines::split_lines;

#[test]
fn splitting_empty_text_gives_no_lines() {
    assert_eq!(split_lines(""), Vec::<String>::new());
}

#[test]
fn splitting_handles_missing_final_newline() {
    assert_eq!(split_lines("a\nb"), vec!["a".to_string(), "b".to_string()]);
}

#[test]
fn splitting_adds_no_line_for_a_trailing_newline() {
    assert_eq!(split_lines("a\nb\n"), vec!["a".to_string(), "b".to_string()]);
}

#[test]
fn splitting_strips_carriage_returns_before_newlines() {
    assert_eq!(
        split_lines("a\r\nb\r\n"),
        vec!["a".to_string(), "b".to_string()]
    );
}

#[test]
fn splitting_keeps_a_carriage_return_not_before_a_newline() {
    assert_eq!(split_lines("a\r"), vec!["a\r".to_string()]);
    assert_eq!(split_lines("a\rb\n"), vec!["a\rb".to_string()]);
}

#[test]
fn splitting_keeps_empty_interior_lines() {
    assert_eq!(
        split_lines("a\n\nb"),
        vec!["a".to_string(), "".to_string(), "b".to_string()]
    );
    assert_eq!(split_lines("\n"), vec!["".to_string()]);
}

#[test]
fn decimal_formatting_of_small_and_round_numbers() {
    assert_eq!(u32_to_decimal(0), "0");
    assert_eq!(u32_to_decimal(7), "7");
    assert_eq!(u32_to_decimal(300), "300");
    assert_eq!(u32_to_decimal(4294967295), "4294967295");
}

#[test]
fn decimal_formatting_of_signed_numbers() {
    assert_eq!(i32_to_decimal(300), "300");
    assert_eq!(i32_to_decimal(0), "0");
    assert_eq!(i32_to_decimal(-12), "-12");
    assert_eq!(i32_to_decimal(i32::MIN), "-2147483648");
    assert_eq!(i32_to_decimal(i32::MAX), "2147483647");
}
