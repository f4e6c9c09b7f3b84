use rgbcal::status::{format_status, push_decimal, push_status_line};

fn decimal_of(n: u64) -> String {
    let mut text = String::new();
    push_decimal(&mut text, n);
    text
}

#[test]
fn decimal_of_single_digits() {
    for n in 0..10u64 {
        assert_eq!(decimal_of(n), format!("{n}"));
    }
}

#[test]
fn decimal_of_longer_numbers() {
    assert_eq!(decimal_of(10), "10");
    assert_eq!(decimal_of(15), "15");
    assert_eq!(decimal_of(100), "100");
    assert_eq!(decimal_of(160), "160");
    assert_eq!(decimal_of(9_007_199_254_740_993), "9007199254740993");
    assert_eq!(decimal_of(u64::MAX), "18446744073709551615");
}

#[test]
fn decimal_agrees_with_std_formatting() {
    for n in 0..5000u64 {
        assert_eq!(decimal_of(n), format!("{n}"));
    }
}

#[test]
fn push_decimal_appends() {
    let mut text = String::from("rate ");
    push_decimal(&mut text, 120);
    assert_eq!(text, "rate 120");
}

#[test]
fn status_line_has_name_colon_space_value() {
    let mut text = String::new();
    push_status_line(&mut text, "green", 7);
    assert_eq!(text, "green: 7\n");
    push_status_line(&mut text, "frame rate", 160);
    assert_eq!(text, "green: 7\nframe rate: 160\n");
}

#[test]
fn status_has_blank_line_channels_and_frame_rate() {
    assert_eq!(
        format_status(&[15, 0, 7], 100),
        "\nred: 15\ngreen: 0\nblue: 7\nframe rate: 100\n"
    );
}

#[test]
fn status_lines_come_in_fixed_order() {
    let text = format_status(&[1, 2, 3], 40);
    let lines: Vec<&str> = text.lines().collect();
    assert_eq!(lines, vec!["", "red: 1", "green: 2", "blue: 3", "frame rate: 40"]);
}
