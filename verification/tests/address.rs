use ddns_sync::address::Ipv4;

#[test]
fn address_is_written_in_dotted_decimal() {
    assert_eq!(Ipv4::new(1, 2, 3, 4).to_text(), "1.2.3.4");
    assert_eq!(Ipv4::new(192, 168, 1, 1).to_text(), "192.168.1.1");
}

#[test]
fn octets_have_no_leading_zeros() {
    assert_eq!(Ipv4::new(0, 0, 0, 0).to_text(), "0.0.0.0");
    assert_eq!(Ipv4::new(10, 0, 100, 9).to_text(), "10.0.100.9");
    assert_eq!(Ipv4::new(203, 0, 113, 7).to_text(), "203.0.113.7");
}

#[test]
fn largest_octets_take_three_digits() {
    assert_eq!(Ipv4::new(255, 255, 255, 255).to_text(), "255.255.255.255");
    assert_eq!(Ipv4::new(99, 100, 199, 200).to_text(), "99.100.199.200");
}

#[test]
fn every_octet_is_written_as_its_decimal_number() {
    for n in 0..=255u8 {
        let text = Ipv4::new(n, 0, n, 255 - n).to_text();
        assert_eq!(text, format!("{}.0.{}.{}", n, n, 255 - n));
    }
}

#[test]
fn new_keeps_the_octets_in_order() {
    let ip = Ipv4::new(8, 9, 10, 11);
    assert_eq!((ip.a, ip.b, ip.c, ip.d), (8, 9, 10, 11));
    assert_eq!(ip, Ipv4 { a: 8, b: 9, c: 10, d: 11 });
}
