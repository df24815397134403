use zoomies::decimal::{push_decimal, push_signed_decimal};
use zoomies::Integral;

#[test]
fn decimal_of_unsigned() {
    for n in [0u128, 1, 9, 10, 19, 100, 1234567890, u64::MAX as u128, u128::MAX] {
        let mut buf = String::from(">");
        push_decimal(&mut buf, n);
        assert_eq!(buf, format!(">{}", n));
    }
}

#[test]
fn decimal_of_signed() {
    for i in [0i128, 1, -1, 9, -9, 10, -10, 4711, -4711, i64::MIN as i128, i128::MAX, i128::MIN] {
        let mut buf = String::from(">");
        push_signed_decimal(&mut buf, i);
        assert_eq!(buf, format!(">{}", i));
    }
}

#[test]
fn decimal_has_no_leading_zero() {
    let mut buf = String::new();
    push_decimal(&mut buf, 1000);
    assert_eq!(buf, "1000");
    let mut buf = String::new();
    push_decimal(&mut buf, 0);
    assert_eq!(buf, "0");
}

#[test]
fn integral_text_of_each_type() {
    let mut buf = String::new();
    12u8.push_text(&mut buf);
    buf.push(' ');
    (-12i8).push_text(&mut buf);
    buf.push(' ');
    usize::MAX.push_text(&mut buf);
    buf.push(' ');
    isize::MIN.push_text(&mut buf);
    assert_eq!(buf, format!("12 -12 {} {}", usize::MAX, isize::MIN));
}
