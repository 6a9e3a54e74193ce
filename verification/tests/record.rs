use cloudflare_dyndns::ipv4::Ipv4Addr;
use cloudflare_dyndns::record::get_recorded_ip;
use cloudflare_dyndns::record::DnsContent;
use cloudflare_dyndns::record::DnsRecord;
use cloudflare_dyndns::record::LookupError;
use cloudflare_dyndns::record::SimpleDnsRecord;

fn listed(id: &str, content: DnsContent) -> DnsRecord {
    DnsRecord {
        name: "home.example.com".to_string(),
        id: id.to_string(),
        ttl: 300,
        proxied: false,
        content,
    }
}

fn a_record(id: &str) -> DnsRecord {
    listed(id, DnsContent::A { content: Ipv4Addr::new(198, 51, 100, 1) })
}

#[test]
fn projects_the_single_a_record() {
    let record = get_recorded_ip(vec![a_record("372e67954025e0ba6aaa6d586b9e0b59")]);
    assert_eq!(
        record,
        Ok(SimpleDnsRecord {
            name: "home.example.com".to_string(),
            id: "372e67954025e0ba6aaa6d586b9e0b59".to_string(),
            ttl: 300,
            proxied: false,
            ip: Ipv4Addr::new(198, 51, 100, 1),
        })
    );
}

#[test]
fn keeps_every_field_of_the_listed_record() {
    let listed = DnsRecord {
        name: "www.example.org".to_string(),
        id: "id-7".to_string(),
        ttl: 1,
        proxied: true,
        content: DnsContent::A { content: Ipv4Addr::new(203, 0, 113, 200) },
    };
    let record = get_recorded_ip(vec![listed]).unwrap();
    assert_eq!(record.name, "www.example.org");
    assert_eq!(record.id, "id-7");
    assert_eq!(record.ttl, 1);
    assert!(record.proxied);
    assert_eq!(record.ip, Ipv4Addr::new(203, 0, 113, 200));
}

#[test]
fn fails_on_an_empty_listing() {
    assert_eq!(get_recorded_ip(Vec::new()), Err(LookupError::NoRecord));
}

#[test]
fn fails_on_two_records() {
    assert_eq!(
        get_recorded_ip(vec![a_record("first"), a_record("second")]),
        Err(LookupError::MultipleRecords { count: 2 })
    );
}

#[test]
fn fails_on_many_records_whatever_their_types() {
    let listing = vec![
        listed("1", DnsContent::TXT),
        a_record("2"),
        listed("3", DnsContent::AAAA),
    ];
    assert_eq!(get_recorded_ip(listing), Err(LookupError::MultipleRecords { count: 3 }));
}

#[test]
fn fails_on_a_record_of_another_type() {
    for content in [
        DnsContent::AAAA,
        DnsContent::CNAME,
        DnsContent::NS,
        DnsContent::MX,
        DnsContent::TXT,
        DnsContent::SRV,
    ] {
        assert_eq!(
            get_recorded_ip(vec![listed("id", content)]),
            Err(LookupError::NotAnARecord { found: content })
        );
    }
}
