use tls_admission::text::{push_dec_byte, push_dec_u16, push_hex_group};

#[test]
fn decimal_bytes_have_no_leading_zeros() {
    let mut s = String::new();
    push_dec_byte(&mut s, 0);
    push_dec_byte(&mut s, 9);
    push_dec_byte(&mut s, 10);
    push_dec_byte(&mut s, 99);
    push_dec_byte(&mut s, 100);
    push_dec_byte(&mut s, 255);
    assert_eq!(s.as_str(), "091099100255");
}

#[test]
fn decimal_ports_cover_all_widths() {
    let cases: [(u16, &str); 6] = [
        (0, "0"),
        (7, "7"),
        (80, "80"),
        (443, "443"),
        (8443, "8443"),
        (65535, "65535"),
    ];
    for (n, expected) in cases {
        let mut s = String::new();
        push_dec_u16(&mut s, n);
        assert_eq!(s.as_str(), expected);
    }
}

#[test]
fn hex_groups_are_lowercase_without_leading_zeros() {
    let cases: [(u16, &str); 7] = [
        (0, "0"),
        (0xf, "f"),
        (0x10, "10"),
        (0xff, "ff"),
        (0x100, "100"),
        (0xabc, "abc"),
        (0xbeef, "beef"),
    ];
    for (n, expected) in cases {
        let mut s = String::new();
        push_hex_group(&mut s, n);
        assert_eq!(s.as_str(), expected);
    }
}
