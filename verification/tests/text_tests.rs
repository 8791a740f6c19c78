use vas_crucible::text::{append_bool, append_decimal, hex_lower, str_eq};

#[test]
fn decimals_as_format_prints_them() {
    for n in [0_i64, 7, 10, 512, -1, -9, -10, i64::MAX, i64::MIN] {
        let mut s = String::from("x=");
        append_decimal(&mut s, n);
        assert_eq!(s, format!("x={n}"));
    }
}

#[test]
fn booleans_and_hex() {
    let mut s = String::new();
    append_bool(&mut s, true);
    append_bool(&mut s, false);
    assert_eq!(s, "truefalse");
    assert_eq!(hex_lower(&[0x00, 0x0f, 0xa5, 0xff]), "000fa5ff");
    assert_eq!(hex_lower(&[]), "");
    assert!(str_eq("abc", "abc"));
    assert!(!str_eq("abc", "abd"));
}
