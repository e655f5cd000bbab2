use vendor_catalog::decimal::append_decimal;

fn written(n: u16) -> String {
    let mut out = String::new();
    append_decimal(&mut out, n);
    out
}

#[test]
fn single_digits_are_written_as_one_character() {
    assert_eq!(written(0), "0");
    assert_eq!(written(1), "1");
    assert_eq!(written(2), "2");
    assert_eq!(written(3), "3");
    assert_eq!(written(4), "4");
    assert_eq!(written(5), "5");
    assert_eq!(written(6), "6");
    assert_eq!(written(7), "7");
    assert_eq!(written(8), "8");
    assert_eq!(written(9), "9");
}

#[test]
fn longer_numbers_start_with_their_highest_digit() {
    assert_eq!(written(10), "10");
    assert_eq!(written(42), "42");
    assert_eq!(written(99), "99");
    assert_eq!(written(100), "100");
    assert_eq!(written(1500), "1500");
    assert_eq!(written(9999), "9999");
    assert_eq!(written(10000), "10000");
    assert_eq!(written(12345), "12345");
    assert_eq!(written(60709), "60709");
    assert_eq!(written(65535), "65535");
}

#[test]
fn digits_are_written_after_what_is_there() {
    let mut out = String::from("price: ");
    append_decimal(&mut out, 270);
    assert_eq!(out, "price: 270");
    append_decimal(&mut out, 0);
    assert_eq!(out, "price: 2700");
    append_decimal(&mut out, 85);
    assert_eq!(out, "price: 270085");
}

#[test]
fn every_number_is_written_as_the_standard_library_writes_it() {
    let mut n: u16 = 0;
    loop {
        assert_eq!(written(n), n.to_string());
        if n == u16::MAX {
            break;
        }
        n += 1;
    }
}
