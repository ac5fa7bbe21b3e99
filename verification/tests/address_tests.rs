use blanknet::address::parse_ipv4;

#[test]
fn parses_dotted_decimal_addresses() {
    assert_eq!(parse_ipv4("192.168.1.201"), Some([192, 168, 1, 201]));
    assert_eq!(parse_ipv4("129.168.1.116"), Some([129, 168, 1, 116]));
    assert_eq!(parse_ipv4("0.0.0.0"), Some([0, 0, 0, 0]));
    assert_eq!(parse_ipv4("255.255.255.255"), Some([255, 255, 255, 255]));
    assert_eq!(parse_ipv4("10.0.20.9"), Some([10, 0, 20, 9]));
}

#[test]
fn refuses_octets_out_of_range() {
    assert_eq!(parse_ipv4("256.0.0.1"), None);
    assert_eq!(parse_ipv4("1.2.3.300"), None);
    assert_eq!(parse_ipv4("1234.1.1.1"), None);
    assert_eq!(parse_ipv4("1.2.3.1000"), None);
}

#[test]
fn refuses_leading_zeros() {
    assert_eq!(parse_ipv4("01.2.3.4"), None);
    assert_eq!(parse_ipv4("1.2.3.00"), None);
    assert_eq!(parse_ipv4("1.2.003.4"), None);
}

#[test]
fn refuses_wrong_number_of_octets() {
    assert_eq!(parse_ipv4("1.2.3"), None);
    assert_eq!(parse_ipv4("1.2.3.4.5"), None);
    assert_eq!(parse_ipv4(""), None);
    assert_eq!(parse_ipv4("1..2.3"), None);
    assert_eq!(parse_ipv4("1.2.3."), None);
    assert_eq!(parse_ipv4(".1.2.3"), None);
}

#[test]
fn refuses_other_characters() {
    assert_eq!(parse_ipv4("a.b.c.d"), None);
    assert_eq!(parse_ipv4(" 1.2.3.4"), None);
    assert_eq!(parse_ipv4("1.2.3.4 "), None);
    assert_eq!(parse_ipv4("1.2.3.-4"), None);
    assert_eq!(parse_ipv4("1.2.3.+4"), None);
    assert_eq!(parse_ipv4("\u{661}.2.3.4"), None);
}

#[test]
fn text_of_every_octet_value_reads_back() {
    for v in 0..=255u32 {
        let text = format!("{}.{}.{}.{}", v, 255 - v, (v * 7) % 256, 0);
        let expected = [v as u8, (255 - v) as u8, ((v * 7) % 256) as u8, 0];
        assert_eq!(parse_ipv4(&text), Some(expected));
    }
}
