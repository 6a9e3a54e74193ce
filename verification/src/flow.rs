//! One update run as a state machine.
//!
//! A run goes through five steps in a fixed order: load the configuration,
//! resolve the current address, create the provider's client, fetch the
//! record, update the record. Each step is work that only the caller can do
//! (read a file, talk to a server). The machine says which work is due
//! ([`State::pending`]), the caller does it and reports what came of it as an
//! [`Event`], and the machine decides how the run goes on ([`State::step`]).
//! The first step that fails ends the run.

use crate::config::config_of_text;
use crate::config::Config;
use crate::config::ConfigError;
use crate::config::ConfigView;
use crate::ipv4::Ipv4Addr;
use crate::record::get_recorded_ip;
use crate::record::listing_view;
use crate::record::recorded_ip;
use crate::record::DnsRecord;
use crate::record::DnsRecordView;
use crate::record::LookupError;
use crate::request::list_recorded_ip;
use crate::request::list_request;
use crate::request::plan_update;
use crate::request::planned_update;
use crate::request::ListDnsRecords;
use crate::request::ListDnsRecordsView;
use crate::request::UpdateDnsRecord;
use crate::request::UpdateDnsRecordView;
use vstd::prelude::*;

verus! {

/// Why a run ended without having done its work.
#[derive(Clone, Copy, Debug, PartialEq, Eq, Structural)]
pub enum Failure {
    /// The configuration file could not be read.
    ConfigUnreadable,
    /// The configuration file was read and is not a configuration.
    ConfigRejected(ConfigError),
    /// The request to the address server failed.
    IpServerUnreachable,
    /// The address server answered, and its answer's body could not be read.
    IpBodyUnreadable,
    /// The address server's answer is not an IPv4 address.
    IpUnparsable,
    /// The provider's client could not be created.
    ClientNotCreated,
    /// The provider did not answer the listing of the records.
    ListingFailed,
    /// The provider's listing does not designate an `A` record.
    Lookup(LookupError),
    /// The provider did not accept the update.
    UpdateRejected,
    /// The caller reported something that the step in progress cannot end
    /// with.
    UnexpectedEvent,
}

/// What came of the work that the caller did for the step in progress.
#[derive(Clone, Debug, PartialEq, Eq)]
pub enum Event {
    /// The configuration file was read; this is its text.
    ConfigRead(String),
    /// The configuration file could not be read.
    ConfigUnreadable,
    /// The address server answered; this is the body of its answer.
    IpBody(String),
    /// The request to the address server failed.
    IpServerUnreachable,
    /// The body of the address server's answer could not be read.
    IpBodyUnreadable,
    /// The provider's client is ready.
    ClientCreated,
    /// The provider's client could not be created.
    ClientNotCreated,
    /// The provider answered the listing; these are the records it found.
    Listed(Vec<DnsRecord>),
    /// The provider did not answer the listing.
    ListingFailed,
    /// The provider accepted the update.
    Updated,
    /// The provider did not accept the update.
    UpdateRejected,
}

/// Mathematical model of an [`Event`].
pub enum EventView {
    ConfigRead(Seq<char>),
    ConfigUnreadable,
    IpBody(Seq<char>),
    IpServerUnreachable,
    IpBodyUnreadable,
    ClientCreated,
    ClientNotCreated,
    Listed(Seq<DnsRecordView>),
    ListingFailed,
    Updated,
    UpdateRejected,
}

impl View for Event {
    type V = EventView;

    open spec fn view(&self) -> EventView {
        match *self {
            Event::ConfigRead(contents) => EventView::ConfigRead(contents@),
            Event::ConfigUnreadable => EventView::ConfigUnreadable,
            Event::IpBody(body) => EventView::IpBody(body@),
            Event::IpServerUnreachable => EventView::IpServerUnreachable,
            Event::IpBodyUnreadable => EventView::IpBodyUnreadable,
            Event::ClientCreated => EventView::ClientCreated,
            Event::ClientNotCreated => EventView::ClientNotCreated,
            Event::Listed(records) => EventView::Listed(listing_view(records@)),
            Event::ListingFailed => EventView::ListingFailed,
            Event::Updated => EventView::Updated,
            Event::UpdateRejected => EventView::UpdateRejected,
        }
    }
}

/// The work that the caller has to do for the step in progress.
#[derive(Clone, Debug, PartialEq, Eq)]
pub enum Action {
    /// Read the configuration file.
    ReadConfigFile,
    /// Send a GET request to `url` and read the body of the answer.
    QueryIp { url: String },
    /// Create the provider's client, which authenticates with `auth_token`.
    CreateClient { auth_token: String },
    /// Send this listing to the provider.
    ListRecords(ListDnsRecords),
    /// Send this update to the provider.
    UpdateRecord(UpdateDnsRecord),
}

/// Mathematical model of an [`Action`].
pub enum ActionView {
    ReadConfigFile,
    QueryIp { url: Seq<char> },
    CreateClient { auth_token: Seq<char> },
    ListRecords(ListDnsRecordsView),
    UpdateRecord(UpdateDnsRecordView),
}

impl View for Action {
    type V = ActionView;

    open spec fn view(&self) -> ActionView {
        match *self {
            Action::ReadConfigFile => ActionView::ReadConfigFile,
            Action::QueryIp { url } => ActionView::QueryIp { url: url@ },
            Action::CreateClient { auth_token } => ActionView::CreateClient {
                auth_token: auth_token@,
            },
            Action::ListRecords(list) => ActionView::ListRecords(list@),
            Action::UpdateRecord(update) => ActionView::UpdateRecord(update@),
        }
    }
}

/// How far a run has come.
#[derive(Clone, Debug, PartialEq, Eq)]
pub enum State {
    /// Nothing is known yet; the configuration file is being read.
    LoadingConfig,
    /// The configuration is loaded; the address server is being asked.
    ResolvingIp { config: Config },
    /// The current address is known; the provider's client is being created.
    CreatingClient { config: Config, current_ip: Ipv4Addr },
    /// The client is ready; the provider is being asked for the record.
    FetchingRecord { config: Config, current_ip: Ipv4Addr },
    /// The record points elsewhere than at the current address, which
    /// `update` is about to write; `previous_ip` is where it points.
    UpdatingRecord { update: UpdateDnsRecord, previous_ip: Ipv4Addr },
    /// The run is over: the record pointed at the current address already.
    Unchanged { ip: Ipv4Addr },
    /// The run is over: the record pointed at `from` and now points at `to`.
    Updated { from: Ipv4Addr, to: Ipv4Addr },
    /// The run is over: a step failed.
    Failed(Failure),
}

/// Mathematical model of a [`State`].
pub enum StateView {
    LoadingConfig,
    ResolvingIp { config: ConfigView },
    CreatingClient { config: ConfigView, current_ip: Ipv4Addr },
    FetchingRecord { config: ConfigView, current_ip: Ipv4Addr },
    UpdatingRecord { update: UpdateDnsRecordView, previous_ip: Ipv4Addr },
    Unchanged { ip: Ipv4Addr },
    Updated { from: Ipv4Addr, to: Ipv4Addr },
    Failed(Failure),
}

impl View for State {
    type V = StateView;

    open spec fn view(&self) -> StateView {
        match *self {
            State::LoadingConfig => StateView::LoadingConfig,
            State::ResolvingIp { config } => StateView::ResolvingIp { config: config@ },
            State::CreatingClient { config, current_ip } => StateView::CreatingClient {
                config: config@,
                current_ip,
            },
            State::FetchingRecord { config, current_ip } => StateView::FetchingRecord {
                config: config@,
                current_ip,
            },
            State::UpdatingRecord { update, previous_ip } => StateView::UpdatingRecord {
                update: update@,
                previous_ip,
            },
            State::Unchanged { ip } => StateView::Unchanged { ip },
            State::Updated { from, to } => StateView::Updated { from, to },
            State::Failed(failure) => StateView::Failed(failure),
        }
    }
}

impl StateView {
    /// The state in which every run begins.
    pub open spec fn start() -> StateView {
        StateView::LoadingConfig
    }

    /// Whether the run is over.
    pub open spec fn finished(self) -> bool {
        match self {
            StateView::Unchanged { .. } => true,
            StateView::Updated { .. } => true,
            StateView::Failed(_) => true,
            _ => false,
        }
    }

    /// The number of steps that lie behind a run in this state; a run that
    /// is over has all five behind it.
    pub open spec fn progress(self) -> nat {
        match self {
            StateView::LoadingConfig => 0,
            StateView::ResolvingIp { .. } => 1,
            StateView::CreatingClient { .. } => 2,
            StateView::FetchingRecord { .. } => 3,
            StateView::UpdatingRecord { .. } => 4,
            _ => 5,
        }
    }

    /// Whether `event` reports that the step in progress went well: it is
    /// the event that carries the step's result, and the result can be used.
    /// Nothing goes well for a run that is over.
    pub open spec fn succeeds_with(self, event: EventView) -> bool {
        match (self, event) {
            (StateView::LoadingConfig, EventView::ConfigRead(contents)) => config_of_text(
                contents,
            ) is Ok,
            (StateView::ResolvingIp { .. }, EventView::IpBody(body)) => Ipv4Addr::parsed(
                body,
            ) is Some,
            (StateView::CreatingClient { .. }, EventView::ClientCreated) => true,
            (StateView::FetchingRecord { .. }, EventView::Listed(listing)) => recorded_ip(
                listing,
            ) is Ok,
            (StateView::UpdatingRecord { .. }, EventView::Updated) => true,
            _ => false,
        }
    }

    /// The work that is due in this state; none once the run is over.
    pub open spec fn pending(self) -> Option<ActionView> {
        match self {
            StateView::LoadingConfig => Some(ActionView::ReadConfigFile),
            StateView::ResolvingIp { config } => Some(
                ActionView::QueryIp { url: config.ip_query_addess },
            ),
            StateView::CreatingClient { config, .. } => Some(
                ActionView::CreateClient { auth_token: config.cloudflare_auth_token },
            ),
            StateView::FetchingRecord { config, .. } => Some(
                ActionView::ListRecords(list_request(config.zone_identifier, config.domain_name)),
            ),
            StateView::UpdatingRecord { update, .. } => Some(ActionView::UpdateRecord(update)),
            _ => None,
        }
    }

    /// The state that follows this one when the caller reports `event`.
    ///
    /// The step in progress ends well with the one event that carries its
    /// result, provided that the result is usable: a text that is a
    /// configuration, a body that is an address, a listing that designates
    /// an `A` record. With anything else the run fails. A run that is over
    /// stays as it is.
    pub open spec fn step(self, event: EventView) -> StateView {
        match self {
            StateView::LoadingConfig => match event {
                EventView::ConfigRead(contents) => match config_of_text(contents) {
                    Ok(config) => StateView::ResolvingIp { config },
                    Err(e) => StateView::Failed(Failure::ConfigRejected(e)),
                },
                EventView::ConfigUnreadable => StateView::Failed(Failure::ConfigUnreadable),
                _ => StateView::Failed(Failure::UnexpectedEvent),
            },
            StateView::ResolvingIp { config } => match event {
                EventView::IpBody(body) => match Ipv4Addr::parsed(body) {
                    Some(current_ip) => StateView::CreatingClient { config, current_ip },
                    None => StateView::Failed(Failure::IpUnparsable),
                },
                EventView::IpServerUnreachable => StateView::Failed(Failure::IpServerUnreachable),
                EventView::IpBodyUnreadable => StateView::Failed(Failure::IpBodyUnreadable),
                _ => StateView::Failed(Failure::UnexpectedEvent),
            },
            StateView::CreatingClient { config, current_ip } => match event {
                EventView::ClientCreated => StateView::FetchingRecord { config, current_ip },
                EventView::ClientNotCreated => StateView::Failed(Failure::ClientNotCreated),
                _ => StateView::Failed(Failure::UnexpectedEvent),
            },
            StateView::FetchingRecord { config, current_ip } => match event {
                EventView::Listed(listing) => match recorded_ip(listing) {
                    Ok(record) => match planned_update(
                        config.zone_identifier,
                        record,
                        current_ip,
                    ) {
                        Some(update) => StateView::UpdatingRecord {
                            update,
                            previous_ip: record.ip,
                        },
                        None => StateView::Unchanged { ip: current_ip },
                    },
                    Err(e) => StateView::Failed(Failure::Lookup(e)),
                },
                EventView::ListingFailed => StateView::Failed(Failure::ListingFailed),
                _ => StateView::Failed(Failure::UnexpectedEvent),
            },
            StateView::UpdatingRecord { update, previous_ip } => match event {
                EventView::Updated => StateView::Updated { from: previous_ip, to: update.content },
                EventView::UpdateRejected => StateView::Failed(Failure::UpdateRejected),
                _ => StateView::Failed(Failure::UnexpectedEvent),
            },
            _ => self,
        }
    }

    /// The state that a run in this state reaches with `events`, reported in
    /// this order.
    pub open spec fn run(self, events: Seq<EventView>) -> StateView
        decreases events.len(),
    {
        if events.len() == 0 {
            self
        } else {
            self.run(events.drop_last()).step(events.last())
        }
    }
}

impl StateView {
    /// A run that is given its events in two parts reaches the same state as
    /// when it is given them at once.
    pub proof fn lemma_run_split(self, first: Seq<EventView>, rest: Seq<EventView>)
        ensures
            self.run(first + rest) == self.run(first).run(rest),
        decreases rest.len(),
    {
        if rest.len() == 0 {
            assert(first + rest =~= first);
        } else {
            self.lemma_run_split(first, rest.drop_last());
            assert((first + rest).drop_last() =~= first + rest.drop_last());
        }
    }

    /// A run that is over stays as it is and asks for no work, whatever is
    /// reported to it.
    pub proof fn lemma_finished_is_final(self, events: Seq<EventView>)
        requires
            self.finished(),
        ensures
            self.run(events) == self,
            self.run(events).pending() is None,
        decreases events.len(),
    {
        if events.len() > 0 {
            self.lemma_finished_is_final(events.drop_last());
        }
    }

    /// While a run is not over it asks for work, and whatever the caller
    /// reports takes it at least one step further; so each of the five steps
    /// is gone through once at most, in their order.
    pub proof fn lemma_step_advances(self, event: EventView)
        requires
            !self.finished(),
        ensures
            self.pending() is Some,
            self.step(event).progress() > self.progress(),
    {
    }

    /// A step that does not go well fails the run, whichever step it is and
    /// whatever went wrong, and a step that goes well does not: the run fails
    /// with an event exactly when the step in progress does not succeed with
    /// it. For a failed run no work is due.
    pub proof fn lemma_step_fails_unless_it_succeeds(self, event: EventView)
        requires
            !self.finished(),
        ensures
            self.step(event) is Failed <==> !self.succeeds_with(event),
            self.step(event) is Failed ==> self.step(event).pending() is None,
    {
    }

    /// No step follows a failed one. Where a run has failed after the first
    /// `i` of its events, it is in that same failed state after any more of
    /// them, and no work is due: not the work of a later step, and no update
    /// in particular.
    pub proof fn lemma_failure_ends_run(self, events: Seq<EventView>, i: int, j: int)
        requires
            0 <= i <= j <= events.len(),
            self.run(events.take(i)) is Failed,
        ensures
            self.run(events.take(j)) == self.run(events.take(i)),
            self.run(events.take(j)).pending() is None,
    {
        let first = events.take(i);
        let rest = events.subrange(i, j);
        assert(events.take(j) =~= first + rest);
        self.lemma_run_split(first, rest);
        self.run(first).lemma_finished_is_final(rest);
    }

    /// A run never goes back, each event that reaches it before it is over
    /// takes it a step further, and so every run is over after five events
    /// at the latest.
    pub proof fn lemma_run_ends(self, events: Seq<EventView>)
        ensures
            self.run(events).progress() >= self.progress(),
            self.run(events).finished() || self.run(events).progress() >= self.progress()
                + events.len(),
            events.len() >= 5 ==> self.run(events).finished(),
        decreases events.len(),
    {
        if events.len() > 0 {
            self.lemma_run_ends(events.drop_last());
            let before = self.run(events.drop_last());
            if !before.finished() {
                before.lemma_step_advances(events.last());
            }
        }
    }

    /// Work is due only while everything has gone well. Where a run from the
    /// start asks for work after some events, each of these events ended one
    /// step well, in the steps' order, and none was left out or repeated. So
    /// a step that fails keeps every later step from being asked for, the
    /// update among them.
    pub proof fn lemma_work_is_due_only_after_success(events: Seq<EventView>, k: int)
        requires
            StateView::start().run(events).pending() is Some,
            0 <= k < events.len(),
        ensures
            StateView::start().run(events).progress() == events.len(),
            StateView::start().run(events.take(k)).progress() == k,
            StateView::start().run(events.take(k)).succeeds_with(events[k]),
        decreases events.len(),
    {
        let start = StateView::start();
        let before = start.run(events.drop_last());
        let last = events.last();
        if before.finished() {
            assert(before.step(last) == before);
        }
        before.lemma_step_fails_unless_it_succeeds(last);
        assert(before.pending() is Some);
        if events.len() > 1 {
            StateView::lemma_work_is_due_only_after_success(events.drop_last(), 0);
        }
        assert(before.progress() == events.len() - 1);
        if k == events.len() - 1 {
            assert(events.take(k) =~= events.drop_last());
        } else {
            StateView::lemma_work_is_due_only_after_success(events.drop_last(), k);
            assert(events.drop_last().take(k) =~= events.take(k));
        }
    }

    /// A record that points at the current address already is left alone:
    /// the run is over with the listing, no update becomes due, and none
    /// does whatever is reported later.
    pub proof fn lemma_same_address_sends_nothing(
        config: ConfigView,
        current_ip: Ipv4Addr,
        listing: Seq<DnsRecordView>,
        later: Seq<EventView>,
    )
        requires
            recorded_ip(listing) is Ok,
            recorded_ip(listing).unwrap().ip == current_ip,
        ensures
            ({
                let fetched = (StateView::FetchingRecord { config, current_ip }).step(
                    EventView::Listed(listing),
                );
                &&& fetched == StateView::Unchanged { ip: current_ip }
                &&& fetched.pending() is None
                &&& fetched.run(later).pending() is None
            }),
    {
        (StateView::Unchanged { ip: current_ip }).lemma_finished_is_final(later);
    }

    /// A record that points elsewhere is updated: with the listing one update
    /// becomes due, which carries the record's identifier, name, time to live
    /// and proxy flag as they were listed, and the current address.
    pub proof fn lemma_other_address_sends_update(
        config: ConfigView,
        current_ip: Ipv4Addr,
        listing: Seq<DnsRecordView>,
    )
        requires
            recorded_ip(listing) is Ok,
            recorded_ip(listing).unwrap().ip != current_ip,
        ensures
            ({
                let record = recorded_ip(listing).unwrap();
                let fetched = (StateView::FetchingRecord { config, current_ip }).step(
                    EventView::Listed(listing),
                );
                fetched.pending() == Some(
                    ActionView::UpdateRecord(
                        UpdateDnsRecordView {
                            zone_identifier: config.zone_identifier,
                            identifier: record.id,
                            name: record.name,
                            ttl: record.ttl,
                            proxied: record.proxied,
                            content: current_ip,
                        },
                    ),
                )
            }),
    {
    }

    /// An update becomes due in no other way: only when the record was being
    /// fetched, the listing designates a record, and that record points
    /// elsewhere than at the current address. The update is then the one
    /// that [`StateView::lemma_other_address_sends_update`] describes.
    pub proof fn lemma_update_only_for_other_address(
        self,
        event: EventView,
        update: UpdateDnsRecordView,
    )
        requires
            self.step(event).pending() == Some(ActionView::UpdateRecord(update)),
        ensures
            self is FetchingRecord,
            event is Listed,
            recorded_ip(event->Listed_0) is Ok,
            ({
                let record = recorded_ip(event->Listed_0).unwrap();
                let config = self->FetchingRecord_config;
                let current_ip = self->FetchingRecord_current_ip;
                &&& record.ip != current_ip
                &&& update == UpdateDnsRecordView {
                    zone_identifier: config.zone_identifier,
                    identifier: record.id,
                    name: record.name,
                    ttl: record.ttl,
                    proxied: record.proxied,
                    content: current_ip,
                }
            }),
    {
    }
}

impl State {
    /// The state in which every run begins.
    pub fn start() -> (state: State)
        ensures
            state@ == StateView::start(),
    {
        State::LoadingConfig
    }

    /// Whether the run is over.
    pub fn finished(&self) -> (r: bool)
        ensures
            r == self@.finished(),
    {
        match self {
            State::Unchanged { .. } => true,
            State::Updated { .. } => true,
            State::Failed(_) => true,
            _ => false,
        }
    }

    /// The work that the caller has to do next; none once the run is over.
    pub fn pending(&self) -> (action: Option<Action>)
        ensures
            match action {
                Some(action) => self@.pending() == Some(action@),
                None => self@.pending() is None,
            },
    {
        match self {
            State::LoadingConfig => Some(Action::ReadConfigFile),
            State::ResolvingIp { config } => Some(
                Action::QueryIp { url: config.ip_query_addess.clone() },
            ),
            State::CreatingClient { config, .. } => Some(
                Action::CreateClient { auth_token: config.cloudflare_auth_token.clone() },
            ),
            State::FetchingRecord { config, .. } => Some(
                Action::ListRecords(
                    list_recorded_ip(config.zone_identifier.as_str(), config.domain_name.as_str()),
                ),
            ),
            State::UpdatingRecord { update, .. } => Some(
                Action::UpdateRecord(
                    UpdateDnsRecord {
                        zone_identifier: update.zone_identifier.clone(),
                        identifier: update.identifier.clone(),
                        name: update.name.clone(),
                        ttl: update.ttl,
                        proxied: update.proxied,
                        content: update.content,
                    },
                ),
            ),
            _ => None,
        }
    }

    /// Ends the step in progress with what the caller reports, and decides
    /// how the run goes on.
    pub fn step(self, event: Event) -> (next: State)
        ensures
            next@ == self@.step(event@),
    {
        match self {
            State::LoadingConfig => match event {
                Event::ConfigRead(contents) => match Config::from_file(contents.as_str()) {
                    Ok(config) => State::ResolvingIp { config },
                    Err(e) => State::Failed(Failure::ConfigRejected(e)),
                },
                Event::ConfigUnreadable => State::Failed(Failure::ConfigUnreadable),
                _ => State::Failed(Failure::UnexpectedEvent),
            },
            State::ResolvingIp { config } => match event {
                Event::IpBody(body) => match Ipv4Addr::parse(body.as_str()) {
                    Some(current_ip) => State::CreatingClient { config, current_ip },
                    None => State::Failed(Failure::IpUnparsable),
                },
                Event::IpServerUnreachable => State::Failed(Failure::IpServerUnreachable),
                Event::IpBodyUnreadable => State::Failed(Failure::IpBodyUnreadable),
                _ => State::Failed(Failure::UnexpectedEvent),
            },
            State::CreatingClient { config, current_ip } => match event {
                Event::ClientCreated => State::FetchingRecord { config, current_ip },
                Event::ClientNotCreated => State::Failed(Failure::ClientNotCreated),
                _ => State::Failed(Failure::UnexpectedEvent),
            },
            State::FetchingRecord { config, current_ip } => match event {
                Event::Listed(records) => match get_recorded_ip(records) {
                    Ok(record) => {
                        let previous_ip = record.ip;
                        match plan_update(config.zone_identifier.as_str(), record, current_ip) {
                            Some(update) => State::UpdatingRecord { update, previous_ip },
                            None => State::Unchanged { ip: current_ip },
                        }
                    },
                    Err(e) => State::Failed(Failure::Lookup(e)),
                },
                Event::ListingFailed => State::Failed(Failure::ListingFailed),
                _ => State::Failed(Failure::UnexpectedEvent),
            },
            State::UpdatingRecord { update, previous_ip } => match event {
                Event::Updated => State::Updated { from: previous_ip, to: update.content },
                Event::UpdateRejected => State::Failed(Failure::UpdateRejected),
                _ => State::Failed(Failure::UnexpectedEvent),
            },
            State::Unchanged { ip } => State::Unchanged { ip },
            State::Updated { from, to } => State::Updated { from, to },
            State::Failed(failure) => State::Failed(failure),
        }
    }
}

} // verus!
