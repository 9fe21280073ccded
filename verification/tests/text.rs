use toggl::text::decimal_text;

#[test]
fn decimal_of_single_digits() {
    assert_eq!(decimal_text(0), "0");
    assert_eq!(decimal_text(7), "7");
    assert_eq!(decimal_text(9), "9");
}

#[test]
fn decimal_of_several_digits() {
    assert_eq!(decimal_text(10), "10");
    assert_eq!(decimal_text(1234567890), "1234567890");
    assert_eq!(decimal_text(1002003), "1002003");
}

#[test]
fn decimal_of_negative_numbers() {
    assert_eq!(decimal_text(-1), "-1");
    assert_eq!(decimal_text(-40), "-40");
}

#[test]
fn decimal_of_the_extremes() {
    assert_eq!(decimal_text(i64::MAX), "9223372036854775807");
    assert_eq!(decimal_text(i64::MIN), "-9223372036854775808");
}

#[test]
fn decimal_agrees_with_the_standard_library() {
    let mut n: i64 = -100_000;
    while n <= 100_000 {
        assert_eq!(decimal_text(n), n.to_string());
        n += 37;
    }
}
