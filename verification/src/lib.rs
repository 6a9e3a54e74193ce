//! Dynamic DNS for a single `A` record.
//!
//! One run finds out the machine's public IPv4 address, compares it with the
//! address that a DNS record points at, and changes the record if the two
//! differ. This library holds every decision of such a run; reading files
//! and talking to servers is left to the program that uses it.
//!
//! - [`config`]: the operator's settings and how they are read from the text
//!   of a configuration file.
//! - [`ipv4`]: IPv4 addresses and their text form.
//! - [`record`]: the provider's listing of DNS records and the one record
//!   that it has to designate.
//! - [`request`]: the listing and the update that are sent to the provider.
//! - [`flow`]: the run as a state machine, from the configuration file to
//!   the update.
//! - [`json`]: what is taken on trust from `serde_json`.

pub mod config;
pub mod flow;
pub mod ipv4;
pub mod json;
pub mod record;
pub mod request;
