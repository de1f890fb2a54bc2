use keisen::text::{push_bool, push_decimal, push_hex_upper};

#[test]
fn decimal_numbers() {
    for n in [0u128, 7, 10, 99, 100, 1725029869123, u64::MAX as u128, u128::MAX] {
        let mut s = String::from("x=");
        push_decimal(&mut s, n);
        assert_eq!(s, format!("x={n}"));
    }
}

#[test]
fn hexadecimal_numbers_are_padded() {
    for (n, w) in [(0x251Cu128, 4u32), (0x41, 4), (0, 4), (0x1F600, 4), (0xABCDEF, 2), (5, 0), (5, 1)] {
        let mut s = String::new();
        push_hex_upper(&mut s, n, w);
        assert_eq!(s, format!("{:0width$X}", n, width = w as usize));
    }
}

#[test]
fn booleans() {
    let mut s = String::from("罫");
    push_bool(&mut s, true);
    push_bool(&mut s, false);
    assert_eq!(s, "罫truefalse");
}
