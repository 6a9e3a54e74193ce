use cloudflare_dyndns::ipv4::Ipv4Addr;

#[test]
fn parses_a_dotted_quad() {
    assert_eq!(Ipv4Addr::parse("203.0.113.7"), Some(Ipv4Addr::new(203, 0, 113, 7)));
}

#[test]
fn rejects_text_that_is_no_address() {
    assert_eq!(Ipv4Addr::parse("not-an-ip"), None);
}

#[test]
fn parses_the_smallest_and_the_largest_address() {
    assert_eq!(Ipv4Addr::parse("0.0.0.0"), Some(Ipv4Addr::new(0, 0, 0, 0)));
    assert_eq!(Ipv4Addr::parse("255.255.255.255"), Some(Ipv4Addr::new(255, 255, 255, 255)));
}

#[test]
fn parses_octets_of_one_two_and_three_digits() {
    assert_eq!(Ipv4Addr::parse("1.22.133.9"), Some(Ipv4Addr::new(1, 22, 133, 9)));
    assert_eq!(Ipv4Addr::parse("10.99.100.199"), Some(Ipv4Addr::new(10, 99, 100, 199)));
    assert_eq!(Ipv4Addr::parse("198.51.100.2"), Some(Ipv4Addr::new(198, 51, 100, 2)));
}

#[test]
fn rejects_an_octet_above_255() {
    assert_eq!(Ipv4Addr::parse("256.0.0.1"), None);
    assert_eq!(Ipv4Addr::parse("1.2.3.300"), None);
    assert_eq!(Ipv4Addr::parse("1.2.999.4"), None);
}

#[test]
fn rejects_leading_zeros() {
    assert_eq!(Ipv4Addr::parse("01.2.3.4"), None);
    assert_eq!(Ipv4Addr::parse("1.2.3.04"), None);
    assert_eq!(Ipv4Addr::parse("1.00.3.4"), None);
    assert_eq!(Ipv4Addr::parse("1.2.003.4"), None);
}

#[test]
fn rejects_a_wrong_number_of_parts() {
    assert_eq!(Ipv4Addr::parse(""), None);
    assert_eq!(Ipv4Addr::parse("1"), None);
    assert_eq!(Ipv4Addr::parse("1.2.3"), None);
    assert_eq!(Ipv4Addr::parse("1.2.3."), None);
    assert_eq!(Ipv4Addr::parse(".1.2.3"), None);
    assert_eq!(Ipv4Addr::parse("1..2.3"), None);
    assert_eq!(Ipv4Addr::parse("1.2.3.4.5"), None);
    assert_eq!(Ipv4Addr::parse("1.2.3.4."), None);
}

#[test]
fn rejects_whitespace_and_other_characters() {
    assert_eq!(Ipv4Addr::parse(" 1.2.3.4"), None);
    assert_eq!(Ipv4Addr::parse("1.2.3.4 "), None);
    assert_eq!(Ipv4Addr::parse("1.2.3.4\n"), None);
    assert_eq!(Ipv4Addr::parse("1.2. 3.4"), None);
    assert_eq!(Ipv4Addr::parse("1.2.3.4a"), None);
    assert_eq!(Ipv4Addr::parse("+1.2.3.4"), None);
    assert_eq!(Ipv4Addr::parse("1.2.3.-4"), None);
    assert_eq!(Ipv4Addr::parse("0x1.2.3.4"), None);
    assert_eq!(Ipv4Addr::parse("1,2,3,4"), None);
}

#[test]
fn rejects_digits_outside_ascii() {
    assert_eq!(Ipv4Addr::parse("\u{0661}.2.3.4"), None);
    assert_eq!(Ipv4Addr::parse("1.2.3.\u{ff14}"), None);
    assert_eq!(Ipv4Addr::parse("\u{e9}1.2.3.4"), None);
}

#[test]
fn rejects_a_run_of_four_digits() {
    assert_eq!(Ipv4Addr::parse("1234.1.1.1"), None);
    assert_eq!(Ipv4Addr::parse("1.1.1.0255"), None);
    assert_eq!(Ipv4Addr::parse("1.1.1.2550"), None);
}

#[test]
fn writes_the_text_form() {
    assert_eq!(Ipv4Addr::new(203, 0, 113, 7).to_text(), "203.0.113.7");
    assert_eq!(Ipv4Addr::new(0, 0, 0, 0).to_text(), "0.0.0.0");
    assert_eq!(Ipv4Addr::new(255, 255, 255, 255).to_text(), "255.255.255.255");
    assert_eq!(Ipv4Addr::new(10, 100, 9, 99).to_text(), "10.100.9.99");
    assert_eq!(Ipv4Addr::new(101, 110, 200, 1).to_text(), "101.110.200.1");
}

#[test]
fn reads_back_what_it_writes() {
    let samples = [0u8, 1, 9, 10, 11, 99, 100, 101, 109, 110, 199, 200, 249, 250, 255];
    for a in samples {
        for b in samples {
            let ip = Ipv4Addr::new(a, b, b, a);
            assert_eq!(Ipv4Addr::parse(&ip.to_text()), Some(ip));
            let ip = Ipv4Addr::new(b, 7, a, 250);
            assert_eq!(Ipv4Addr::parse(&ip.to_text()), Some(ip));
        }
    }
}

#[test]
fn writes_back_what_it_reads() {
    for text in ["203.0.113.7", "198.51.100.1", "0.0.0.0", "9.10.99.100", "255.255.255.255"] {
        let ip = Ipv4Addr::parse(text).unwrap();
        assert_eq!(ip.to_text(), text);
    }
}

#[test]
fn accepts_the_canonical_form_and_nothing_else() {
    let cases: [(&str, Option<[u8; 4]>); 14] = [
        ("127.0.0.1", Some([127, 0, 0, 1])),
        ("192.168.1.10", Some([192, 168, 1, 10])),
        ("25.5.255.25", Some([25, 5, 255, 25])),
        ("1.1.1.0", Some([1, 1, 1, 0])),
        ("1.1.1.00", None),
        ("00.0.0.0", None),
        ("0000.0.0.0", None),
        ("999.9.9.9", None),
        ("a.b.c.d", None),
        ("1.1.1", None),
        ("1.1.1.1.1", None),
        ("1.1.1.1 ", None),
        ("1:1:1:1", None),
        ("255.255.255.256", None),
    ];
    for (text, expected) in cases {
        assert_eq!(Ipv4Addr::parse(text).map(|ip| ip.octets()), expected, "{:?}", text);
    }
}

#[test]
fn hands_out_its_octets_in_order() {
    assert_eq!(Ipv4Addr::new(198, 51, 100, 2).octets(), [198, 51, 100, 2]);
    let ip = Ipv4Addr::new(1, 2, 3, 4);
    assert_eq!((ip.a, ip.b, ip.c, ip.d), (1, 2, 3, 4));
}

#[test]
fn distinguishes_addresses() {
    assert_ne!(Ipv4Addr::new(198, 51, 100, 1), Ipv4Addr::new(198, 51, 100, 2));
    assert_eq!(Ipv4Addr::new(198, 51, 100, 1), Ipv4Addr::new(198, 51, 100, 1));
}
