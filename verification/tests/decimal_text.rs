use udp_command_sender::decimal::{format_decimal, push_decimal, push_digits, push_padded};

#[test]
fn digits_map_to_their_characters() {
    let mut out = String::new();
    push_digits(&mut out, 1_234_567_890);
    assert_eq!(out, "1234567890");
}

#[test]
fn whole_numbers_have_no_point() {
    assert_eq!(format_decimal(false, 0, 0, 3), "0");
    assert_eq!(format_decimal(false, 7, 0, 3), "7");
    assert_eq!(format_decimal(false, 10, 0, 0), "10");
    assert_eq!(format_decimal(false, 1700, 0, 8), "1700");
    assert_eq!(format_decimal(false, u64::MAX, 0, 0), "18446744073709551615");
}

#[test]
fn fractions_lose_their_trailing_zeros() {
    assert_eq!(format_decimal(false, 0, 1, 3), "0.001");
    assert_eq!(format_decimal(false, 0, 10, 3), "0.01");
    assert_eq!(format_decimal(false, 0, 100, 3), "0.1");
    assert_eq!(format_decimal(false, 1, 500, 3), "1.5");
    assert_eq!(format_decimal(false, 12, 345, 3), "12.345");
    assert_eq!(format_decimal(false, 48, 36196100, 8), "48.361961");
    assert_eq!(format_decimal(false, 11, 750353, 8), "11.00750353");
    assert_eq!(format_decimal(false, 0, 1, 8), "0.00000001");
}

#[test]
fn negative_numbers_start_with_a_minus() {
    assert_eq!(format_decimal(true, 0, 0, 3), "-0");
    assert_eq!(format_decimal(true, 0, 5, 3), "-0.005");
    assert_eq!(format_decimal(true, 82, 0, 0), "-82");
    assert_eq!(format_decimal(true, 3, 250, 3), "-3.25");
}

#[test]
fn only_the_last_digits_of_the_fraction_count() {
    assert_eq!(format_decimal(false, 2, 1234, 3), "2.234");
    assert_eq!(format_decimal(false, 2, 1000, 3), "2");
    assert_eq!(format_decimal(false, 2, 99, 0), "2");
}

#[test]
fn pushing_appends_to_what_is_there() {
    let mut out = String::from("n=");
    push_digits(&mut out, 1203);
    assert_eq!(out, "n=1203");
    push_padded(&mut out, 42, 5);
    assert_eq!(out, "n=120300042");
    push_padded(&mut out, 9, 0);
    assert_eq!(out, "n=120300042");
    push_decimal(&mut out, true, 6, 70, 2);
    assert_eq!(out, "n=120300042-6.7");
}
