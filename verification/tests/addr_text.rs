use tls_admission::addr::{extract_ip_string, ip_text, sock_addr_text, IpAddress, SockAddr};

fn v4(a: u8, b: u8, c: u8, d: u8) -> IpAddress {
    IpAddress::V4 { a, b, c, d }
}

fn v6(groups: [u16; 8]) -> IpAddress {
    IpAddress::V6 { groups }
}

#[test]
fn ipv4_dotted_decimal() {
    assert_eq!(ip_text(&v4(203, 0, 113, 5)).as_str(), "203.0.113.5");
    assert_eq!(ip_text(&v4(0, 0, 0, 0)).as_str(), "0.0.0.0");
    assert_eq!(ip_text(&v4(255, 255, 255, 255)).as_str(), "255.255.255.255");
    assert_eq!(ip_text(&v4(10, 42, 7, 100)).as_str(), "10.42.7.100");
}

#[test]
fn ipv6_compresses_leftmost_longest_zero_run() {
    assert_eq!(ip_text(&v6([0x2001, 0xdb8, 0, 0, 0, 0, 0, 1])).as_str(), "2001:db8::1");
    assert_eq!(
        ip_text(&v6([0xfe80, 0, 0, 0, 1, 2, 3, 4])).as_str(),
        "fe80::1:2:3:4"
    );
    // Two runs of equal length: the leftmost is compressed.
    assert_eq!(ip_text(&v6([1, 0, 0, 2, 3, 0, 0, 4])).as_str(), "1::2:3:0:0:4");
    // The longer run wins even when it comes second.
    assert_eq!(ip_text(&v6([1, 0, 0, 2, 0, 0, 0, 4])).as_str(), "1:0:0:2::4");
}

#[test]
fn ipv6_run_at_either_end() {
    assert_eq!(ip_text(&v6([1, 2, 3, 4, 5, 6, 7, 0])).as_str(), "1:2:3:4:5:6:7:0");
    assert_eq!(ip_text(&v6([1, 2, 3, 4, 5, 6, 0, 0])).as_str(), "1:2:3:4:5:6::");
    assert_eq!(ip_text(&v6([0x2001, 0, 0, 0, 0, 0, 0, 0])).as_str(), "2001::");
}

#[test]
fn ipv6_single_zero_group_is_not_compressed() {
    assert_eq!(ip_text(&v6([1, 0, 2, 3, 4, 5, 6, 7])).as_str(), "1:0:2:3:4:5:6:7");
}

#[test]
fn ipv6_without_zero_groups() {
    assert_eq!(
        ip_text(&v6([0x2001, 0xdb8, 0x85a3, 0x8d3, 0x1319, 0x8a2e, 0x370, 0x7348])).as_str(),
        "2001:db8:85a3:8d3:1319:8a2e:370:7348"
    );
}

#[test]
fn ipv6_hex_digits_are_lowercase_without_leading_zeros() {
    assert_eq!(
        ip_text(&v6([0xabcd, 0xef, 0xf, 0xff0, 1, 0x10, 0x100, 0x1000])).as_str(),
        "abcd:ef:f:ff0:1:10:100:1000"
    );
}

#[test]
fn ipv4_mapped_ipv6_normalizes_to_ipv4_text() {
    assert_eq!(
        ip_text(&v6([0, 0, 0, 0, 0, 0xffff, 0x0102, 0x0304])).as_str(),
        "1.2.3.4"
    );
    assert_eq!(
        ip_text(&v6([0, 0, 0, 0, 0, 0xffff, 0xcb00, 0x7105])).as_str(),
        "203.0.113.5"
    );
}

#[test]
fn ipv4_compatible_ipv6_normalizes_to_ipv4_text() {
    assert_eq!(ip_text(&v6([0, 0, 0, 0, 0, 0, 0x0102, 0x0304])).as_str(), "1.2.3.4");
    // The unspecified and loopback addresses take the IPv4-compatible form
    // too, exactly as the normalization defines it.
    assert_eq!(ip_text(&v6([0, 0, 0, 0, 0, 0, 0, 0])).as_str(), "0.0.0.0");
    assert_eq!(ip_text(&v6([0, 0, 0, 0, 0, 0, 0, 1])).as_str(), "0.0.0.1");
}

#[test]
fn extract_ip_string_ignores_the_port() {
    let a = SockAddr { ip: v4(203, 0, 113, 5), port: 443 };
    assert_eq!(extract_ip_string(&a).as_str(), "203.0.113.5");
    let b = SockAddr { ip: v6([0x2001, 0xdb8, 0, 0, 0, 0, 0, 1]), port: 8443 };
    assert_eq!(extract_ip_string(&b).as_str(), "2001:db8::1");
}

#[test]
fn sock_addr_text_forms() {
    let a = SockAddr { ip: v4(203, 0, 113, 5), port: 443 };
    assert_eq!(sock_addr_text(&a).as_str(), "203.0.113.5:443");
    let b = SockAddr { ip: v6([0x2001, 0xdb8, 0, 0, 0, 0, 0, 1]), port: 65535 };
    assert_eq!(sock_addr_text(&b).as_str(), "[2001:db8::1]:65535");
    let c = SockAddr { ip: v4(127, 0, 0, 1), port: 0 };
    assert_eq!(sock_addr_text(&c).as_str(), "127.0.0.1:0");
}
