use bincode_derive::text::decimal_string;

#[test]
fn decimal_of_zero() {
    assert_eq!(decimal_string(0), "0");
}

#[test]
fn decimal_of_one_digit() {
    assert_eq!(decimal_string(7), "7");
    assert_eq!(decimal_string(9), "9");
}

#[test]
fn decimal_of_several_digits() {
    assert_eq!(decimal_string(10), "10");
    assert_eq!(decimal_string(1203), "1203");
    assert_eq!(decimal_string(4294967295), "4294967295");
}

#[test]
fn decimal_is_what_the_formatter_writes() {
    for n in [0usize, 1, 9, 10, 11, 99, 100, 101, 65535, 1000000, usize::MAX] {
        assert_eq!(decimal_string(n), format!("{}", n));
    }
}
