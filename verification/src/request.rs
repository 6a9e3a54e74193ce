//! The two requests that the program sends to the DNS provider, as plain data.

use crate::ipv4::Ipv4Addr;
use crate::record::SimpleDnsRecord;
use crate::record::SimpleDnsRecordView;
use vstd::prelude::*;

verus! {

/// A listing of the DNS records of one zone, restricted to one record name.
#[derive(Clone, Debug, PartialEq, Eq)]
pub struct ListDnsRecords {
    /// The zone whose records are listed.
    pub zone_identifier: String,
    /// The exact record name that the listing is filtered by.
    pub name: String,
}

/// Mathematical model of a [`ListDnsRecords`].
pub struct ListDnsRecordsView {
    pub zone_identifier: Seq<char>,
    pub name: Seq<char>,
}

impl View for ListDnsRecords {
    type V = ListDnsRecordsView;

    open spec fn view(&self) -> ListDnsRecordsView {
        ListDnsRecordsView { zone_identifier: self.zone_identifier@, name: self.name@ }
    }
}

/// An update of one `A` record: the record's identifier within its zone, and
/// the name, time to live, proxy flag and address that the record is to have.
#[derive(Clone, Debug, PartialEq, Eq)]
pub struct UpdateDnsRecord {
    pub zone_identifier: String,
    pub identifier: String,
    pub name: String,
    pub ttl: u32,
    pub proxied: bool,
    pub content: Ipv4Addr,
}

/// Mathematical model of an [`UpdateDnsRecord`].
pub struct UpdateDnsRecordView {
    pub zone_identifier: Seq<char>,
    pub identifier: Seq<char>,
    pub name: Seq<char>,
    pub ttl: u32,
    pub proxied: bool,
    pub content: Ipv4Addr,
}

impl View for UpdateDnsRecord {
    type V = UpdateDnsRecordView;

    open spec fn view(&self) -> UpdateDnsRecordView {
        UpdateDnsRecordView {
            zone_identifier: self.zone_identifier@,
            identifier: self.identifier@,
            name: self.name@,
            ttl: self.ttl,
            proxied: self.proxied,
            content: self.content,
        }
    }
}

/// The listing that finds the record of `domain_name` in the zone `zone_id`.
pub open spec fn list_request(zone_id: Seq<char>, domain_name: Seq<char>) -> ListDnsRecordsView {
    ListDnsRecordsView { zone_identifier: zone_id, name: domain_name }
}

/// The update that writes `record` back to the zone `zone_id`: every field of
/// the record goes into the request as it is.
pub open spec fn update_request(
    zone_id: Seq<char>,
    record: SimpleDnsRecordView,
) -> UpdateDnsRecordView {
    UpdateDnsRecordView {
        zone_identifier: zone_id,
        identifier: record.id,
        name: record.name,
        ttl: record.ttl,
        proxied: record.proxied,
        content: record.ip,
    }
}

/// What has to be sent so that `record` points at `current_ip`: nothing when
/// it already does, else the update of `record` with its address replaced.
pub open spec fn planned_update(
    zone_id: Seq<char>,
    record: SimpleDnsRecordView,
    current_ip: Ipv4Addr,
) -> Option<UpdateDnsRecordView> {
    if record.ip == current_ip {
        None
    } else {
        Some(update_request(zone_id, SimpleDnsRecordView { ip: current_ip, ..record }))
    }
}

impl UpdateDnsRecordView {
    /// The record as the provider holds it once it has applied the update.
    pub open spec fn applied(self) -> SimpleDnsRecordView {
        SimpleDnsRecordView {
            name: self.name,
            id: self.identifier,
            ttl: self.ttl,
            proxied: self.proxied,
            ip: self.content,
        }
    }
}

/// An update is planned exactly when the record points elsewhere than at the
/// current address, and it changes nothing but the address: the record that
/// it leaves is the record that was fetched, with the current address.
pub proof fn lemma_planned_update_changes_the_address_only(
    zone_id: Seq<char>,
    record: SimpleDnsRecordView,
    current_ip: Ipv4Addr,
)
    ensures
        planned_update(zone_id, record, current_ip) is Some <==> record.ip != current_ip,
        planned_update(zone_id, record, current_ip) matches Some(update) ==> {
            &&& update.zone_identifier == zone_id
            &&& update.applied() == SimpleDnsRecordView { ip: current_ip, ..record }
        },
{
}

/// Running again changes nothing. Once the planned update is applied, or
/// where none was needed, the record points at the current address, and no
/// update is planned for it.
pub proof fn lemma_planned_update_settles(
    zone_id: Seq<char>,
    record: SimpleDnsRecordView,
    current_ip: Ipv4Addr,
)
    ensures
        match planned_update(zone_id, record, current_ip) {
            Some(update) => planned_update(zone_id, update.applied(), current_ip) is None,
            None => record.ip == current_ip,
        },
{
}

/// Builds the listing request for the record named `domain_name` in the zone
/// `zone_id`.
pub fn list_recorded_ip(zone_id: &str, domain_name: &str) -> (list: ListDnsRecords)
    ensures
        list@ == list_request(zone_id@, domain_name@),
{
    ListDnsRecords { zone_identifier: zone_id.to_owned(), name: domain_name.to_owned() }
}

/// Builds the request that writes `dns_record` to the zone `zone_id`.
pub fn update_recorded_ip(zone_id: &str, dns_record: SimpleDnsRecord) -> (update: UpdateDnsRecord)
    ensures
        update@ == update_request(zone_id@, dns_record@),
{
    UpdateDnsRecord {
        zone_identifier: zone_id.to_owned(),
        identifier: dns_record.id,
        name: dns_record.name,
        ttl: dns_record.ttl,
        proxied: dns_record.proxied,
        content: dns_record.ip,
    }
}

/// Decides whether the record has to change. An address that equals the
/// recorded one leads to no request at all. Any other address leads to one
/// update, which keeps the record's identifier, name, time to live and proxy
/// flag and carries `current_ip` as the new content.
pub fn plan_update(zone_id: &str, dns_record: SimpleDnsRecord, current_ip: Ipv4Addr) -> (plan:
    Option<UpdateDnsRecord>)
    ensures
        plan is None <==> dns_record.ip == current_ip,
        plan matches Some(update) ==> update@ == (UpdateDnsRecordView {
            zone_identifier: zone_id@,
            identifier: dns_record.id@,
            name: dns_record.name@,
            ttl: dns_record.ttl,
            proxied: dns_record.proxied,
            content: current_ip,
        }),
        match plan {
            Some(update) => planned_update(zone_id@, dns_record@, current_ip) == Some(update@),
            None => planned_update(zone_id@, dns_record@, current_ip) is None,
        },
{
    let mut dns_record = dns_record;
    if dns_record.ip == current_ip {
        None
    } else {
        dns_record.ip = current_ip;
        Some(update_recorded_ip(zone_id, dns_record))
    }
}

} // verus!
