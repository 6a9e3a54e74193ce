//! The provider's DNS records and the one record this program keeps up to date.

use crate::ipv4::Ipv4Addr;
use vstd::prelude::*;

verus! {

/// The typed content of a DNS record as the provider reports it. Only an `A`
/// record carries what this program works with, its IPv4 address.
#[derive(Clone, Copy, Debug, PartialEq, Eq, Structural)]
pub enum DnsContent {
    A { content: Ipv4Addr },
    AAAA,
    CNAME,
    NS,
    MX,
    TXT,
    SRV,
}

/// One entry of the provider's answer to a listing of DNS records.
#[derive(Clone, Debug, PartialEq, Eq)]
pub struct DnsRecord {
    /// DNS record name.
    pub name: String,
    /// Identifier that the provider assigned to the record.
    pub id: String,
    /// Time to live, in seconds.
    pub ttl: u32,
    /// Whether traffic for the record passes through the provider's network.
    pub proxied: bool,
    /// Record type together with the record's value.
    pub content: DnsContent,
}

/// Mathematical model of a [`DnsRecord`].
pub struct DnsRecordView {
    pub name: Seq<char>,
    pub id: Seq<char>,
    pub ttl: u32,
    pub proxied: bool,
    pub content: DnsContent,
}

impl View for DnsRecord {
    type V = DnsRecordView;

    open spec fn view(&self) -> DnsRecordView {
        DnsRecordView {
            name: self.name@,
            id: self.id@,
            ttl: self.ttl,
            proxied: self.proxied,
            content: self.content,
        }
    }
}

/// What the program needs of an `A` record to compare it with the current
/// address and to write it back: the listing's entry without the fields that
/// an update does not carry.
#[derive(Clone, Debug, PartialEq, Eq)]
pub struct SimpleDnsRecord {
    pub name: String,
    pub id: String,
    pub ttl: u32,
    pub proxied: bool,
    pub ip: Ipv4Addr,
}

/// Mathematical model of a [`SimpleDnsRecord`].
pub struct SimpleDnsRecordView {
    pub name: Seq<char>,
    pub id: Seq<char>,
    pub ttl: u32,
    pub proxied: bool,
    pub ip: Ipv4Addr,
}

impl View for SimpleDnsRecord {
    type V = SimpleDnsRecordView;

    open spec fn view(&self) -> SimpleDnsRecordView {
        SimpleDnsRecordView {
            name: self.name@,
            id: self.id@,
            ttl: self.ttl,
            proxied: self.proxied,
            ip: self.ip,
        }
    }
}

/// Why a listing does not yield the record to update.
#[derive(Clone, Copy, Debug, PartialEq, Eq, Structural)]
pub enum LookupError {
    /// The listing is empty: the zone has no record of the queried name.
    NoRecord,
    /// The listing holds more than one record of the queried name.
    MultipleRecords { count: usize },
    /// The single record of the queried name is not an `A` record.
    NotAnARecord { found: DnsContent },
}

/// The models of a listing's entries, in the listing's order.
pub open spec fn listing_view(records: Seq<DnsRecord>) -> Seq<DnsRecordView> {
    records.map_values(|r: DnsRecord| r@)
}

/// The record that a listing designates: its only entry, which has to be an
/// `A` record, reduced to the fields of a [`SimpleDnsRecord`].
pub open spec fn recorded_ip(listing: Seq<DnsRecordView>) -> Result<
    SimpleDnsRecordView,
    LookupError,
> {
    if listing.len() == 0 {
        Err(LookupError::NoRecord)
    } else if listing.len() > 1 {
        Err(LookupError::MultipleRecords { count: listing.len() as usize })
    } else {
        match listing[0].content {
            DnsContent::A { content } => Ok(
                SimpleDnsRecordView {
                    name: listing[0].name,
                    id: listing[0].id,
                    ttl: listing[0].ttl,
                    proxied: listing[0].proxied,
                    ip: content,
                },
            ),
            other => Err(LookupError::NotAnARecord { found: other }),
        }
    }
}

/// Picks the record to update out of the provider's listing for the configured
/// name: the listing must hold exactly one entry, and that entry must be an
/// `A` record.
pub fn get_recorded_ip(listing: Vec<DnsRecord>) -> (r: Result<SimpleDnsRecord, LookupError>)
    ensures
        match r {
            Ok(record) => recorded_ip(listing_view(listing@)) == Ok::<_, LookupError>(record@),
            Err(e) => recorded_ip(listing_view(listing@)) == Err::<SimpleDnsRecordView, _>(e),
        },
{
    let mut listing = listing;
    let count = listing.len();
    if count == 0 {
        return Err(LookupError::NoRecord);
    }
    if count > 1 {
        return Err(LookupError::MultipleRecords { count });
    }
    let ghost before = listing@;
    let dns_record = listing.remove(0);
    assert(listing_view(before)[0] == dns_record@);
    match dns_record.content {
        DnsContent::A { content } => Ok(
            SimpleDnsRecord {
                name: dns_record.name,
                id: dns_record.id,
                ttl: dns_record.ttl,
                proxied: dns_record.proxied,
                ip: content,
            },
        ),
        other => Err(LookupError::NotAnARecord { found: other }),
    }
}

} // verus!
