use bore_cli::ip_range::{parse_ip_range, IpRangeError};

#[test]
fn a_range_lists_every_address() {
    let ips = parse_ip_range("127.0.0.1-10").unwrap();
    assert_eq!(
        ips,
        vec![
            "127.0.0.1",
            "127.0.0.2",
            "127.0.0.3",
            "127.0.0.4",
            "127.0.0.5",
            "127.0.0.6",
            "127.0.0.7",
            "127.0.0.8",
            "127.0.0.9",
            "127.0.0.10"
        ]
    );
}

#[test]
fn a_range_of_one_address() {
    assert_eq!(parse_ip_range("10.1.2.255-255").unwrap(), vec!["10.1.2.255"]);
}

#[test]
fn the_whole_last_octet() {
    let ips = parse_ip_range("192.168.7.0-255").unwrap();
    assert_eq!(ips.len(), 256);
    assert_eq!(ips[0], "192.168.7.0");
    assert_eq!(ips[99], "192.168.7.99");
    assert_eq!(ips[255], "192.168.7.255");
}

#[test]
fn a_text_without_a_dash_stands_for_itself() {
    assert_eq!(parse_ip_range("localhost").unwrap(), vec!["localhost"]);
    assert_eq!(parse_ip_range("").unwrap(), vec![""]);
    assert_eq!(parse_ip_range("10.0.0.300").unwrap(), vec!["10.0.0.300"]);
}

#[test]
fn only_the_last_octet_is_read() {
    assert_eq!(parse_ip_range("a.b..1-2").unwrap(), vec!["a.b..1", "a.b..2"]);
    assert_eq!(parse_ip_range("é.ü.ñ.1-2").unwrap(), vec!["é.ü.ñ.1", "é.ü.ñ.2"]);
}

#[test]
fn signs_and_leading_zeros_are_read() {
    assert_eq!(parse_ip_range("10.0.0.+1-002").unwrap(), vec!["10.0.0.1", "10.0.0.2"]);
    assert_eq!(parse_ip_range("10.0.0.0000000000000000001-+1").unwrap(), vec!["10.0.0.1"]);
}

#[test]
fn an_address_has_four_parts() {
    let e = parse_ip_range("10.0.1-5").unwrap_err();
    assert!(matches!(&e, IpRangeError::InvalidIp(s) if s == "10.0.1"));
    assert_eq!(e.message(), "Invalid IP format: 10.0.1");
    assert_eq!(parse_ip_range("my-host").unwrap_err().message(), "Invalid IP format: my");
    assert_eq!(parse_ip_range("1.2.3.4.5-x").unwrap_err().message(), "Invalid IP format: 1.2.3.4.5");
    assert_eq!(parse_ip_range("-").unwrap_err().message(), "Invalid IP format: ");
}

#[test]
fn the_end_is_an_octet() {
    for end in ["", "256", "x", "+", "-1", "1-2", " 9", "١", "10.0.0.9"] {
        let e = parse_ip_range(&format!("10.0.0.z-{end}")).unwrap_err();
        assert!(matches!(&e, IpRangeError::InvalidEnd(s) if s == end));
        assert_eq!(e.message(), format!("Invalid end number: {end}"));
    }
}

#[test]
fn the_base_is_an_octet() {
    let e = parse_ip_range("10.0.0.x-5").unwrap_err();
    assert!(matches!(&e, IpRangeError::InvalidLastOctet(s) if s == "x"));
    assert_eq!(e.message(), "Invalid IP last octet: x");
    assert_eq!(parse_ip_range("10.0.0.-5").unwrap_err().message(), "Invalid IP last octet: ");
}

#[test]
fn the_end_is_not_below_the_base() {
    let e = parse_ip_range("10.0.0.9-8").unwrap_err();
    assert!(matches!(e, IpRangeError::EndBelowBase));
    assert_eq!(e.message(), "End number must be greater than or equal to base number");
}

#[test]
fn listed_addresses_differ_and_stand_for_themselves() {
    let ips = parse_ip_range("10.0.0.8-12").unwrap();
    for (i, ip) in ips.iter().enumerate() {
        assert_eq!(parse_ip_range(ip).unwrap(), vec![ip.clone()]);
        assert!(!ips[i + 1..].contains(ip));
    }
}
