use posprint::numfmt::push_dec;
use posprint::numfmt::push_dec_padded;
use posprint::numfmt::push_money2;
use posprint::numfmt::push_money2_padded;
use posprint::numfmt::push_money2_str;
use posprint::numfmt::push_qty3_str;

#[test]
fn decimal_digits() {
    let mut buf = Vec::new();
    push_dec(&mut buf, 0);
    assert_eq!(buf, b"0".to_vec());
    buf.clear();
    push_dec(&mut buf, 1234567890);
    assert_eq!(buf, b"1234567890".to_vec());
}

#[test]
fn right_justified_quantity() {
    let mut buf = Vec::new();
    push_dec_padded(&mut buf, 7, 3);
    assert_eq!(buf, b"  7".to_vec());
    buf.clear();
    push_dec_padded(&mut buf, 123, 3);
    assert_eq!(buf, b"123".to_vec());
    buf.clear();
    // wider content is kept whole
    push_dec_padded(&mut buf, 1234, 3);
    assert_eq!(buf, b"1234".to_vec());
}

#[test]
fn amounts_carry_two_fractional_digits() {
    let mut buf = Vec::new();
    push_money2(&mut buf, 1250);
    assert_eq!(buf, b"12.50".to_vec());
    buf.clear();
    push_money2(&mut buf, 5);
    assert_eq!(buf, b"0.05".to_vec());
    buf.clear();
    push_money2(&mut buf, 100);
    assert_eq!(buf, b"1.00".to_vec());
}

#[test]
fn amount_field_is_at_least_six_wide() {
    let mut buf = Vec::new();
    push_money2_padded(&mut buf, 1250, 6);
    assert_eq!(buf, b" 12.50".to_vec());
    buf.clear();
    push_money2_padded(&mut buf, 0, 6);
    assert_eq!(buf, b"  0.00".to_vec());
    buf.clear();
    push_money2_padded(&mut buf, 123456789, 6);
    assert_eq!(buf, b"1234567.89".to_vec());
}

#[test]
fn string_renderings_match() {
    let mut s = String::new();
    push_money2_str(&mut s, 240);
    assert_eq!(s, "2.40");
    let mut q = String::new();
    push_qty3_str(&mut q, 1000);
    assert_eq!(q, "1.000");
    let mut q2 = String::new();
    push_qty3_str(&mut q2, 2345);
    assert_eq!(q2, "2.345");
    let mut q3 = String::new();
    push_qty3_str(&mut q3, 7);
    assert_eq!(q3, "0.007");
}
