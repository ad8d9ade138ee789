use kvbench::text::{decimal_text, push_decimal, push_flush_left, push_flush_right};

#[test]
fn decimal_numbers() {
    assert_eq!(decimal_text(0), "0");
    assert_eq!(decimal_text(7), "7");
    assert_eq!(decimal_text(10), "10");
    assert_eq!(decimal_text(1234567890), "1234567890");
    assert_eq!(decimal_text(u64::MAX as u128), u64::MAX.to_string());
    assert_eq!(decimal_text(u128::MAX), u128::MAX.to_string());
    for n in [9u128, 11, 99, 100, 101, 999, 1000, 1 << 64, 10u128.pow(38)] {
        assert_eq!(decimal_text(n), n.to_string());
    }
}

#[test]
fn decimal_is_appended() {
    let mut text = String::from("n = ");
    push_decimal(&mut text, 4096);
    push_decimal(&mut text, 0);
    assert_eq!(text, "n = 40960");
}

#[test]
fn columns() {
    let mut text = String::new();
    push_flush_left(&mut text, "Read", 5);
    text.push('|');
    push_flush_left(&mut text, "Write", 5);
    text.push('|');
    push_flush_left(&mut text, "Longer", 5);
    text.push('|');
    push_flush_left(&mut text, "", 2);
    text.push('|');
    push_flush_right(&mut text, 42, 5);
    text.push('|');
    push_flush_right(&mut text, 12345, 5);
    text.push('|');
    push_flush_right(&mut text, 123456, 5);
    text.push('|');
    push_flush_right(&mut text, 0, 0);
    assert_eq!(text, "Read |Write|Longer|  |   42|12345|123456|0");
}

#[test]
fn columns_are_those_of_the_standard_library() {
    for n in [0u128, 5, 99, 1000, 99_999, 100_000, u128::MAX] {
        for width in [0usize, 1, 5, 6, 40] {
            let mut text = String::new();
            push_flush_right(&mut text, n, width);
            assert_eq!(text, format!("{n:width$}"));
        }
    }
    for name in ["", "a", "Read", "Write", "L\u{e4}nger", "Longer"] {
        for width in [0usize, 4, 5, 6, 7] {
            let mut text = String::new();
            push_flush_left(&mut text, name, width);
            assert_eq!(text, format!("{name:width$}"));
        }
    }
}
