//! The operator's settings and how they are read from a configuration file.

use crate::json::members_view;
use crate::json::parse_string_object;
use crate::json::string_object;
use vstd::prelude::*;

verus! {

/// The settings of one run. All four are required; there are no defaults.
#[derive(Clone, Debug, PartialEq, Eq)]
pub struct Config {
    /// The API token that authorises requests to the DNS provider.
    pub cloudflare_auth_token: String,
    /// The zone that holds the record.
    pub zone_identifier: String,
    /// The name of the record that is kept up to date.
    pub domain_name: String,
    /// The URL that answers a GET request with the caller's public address.
    pub ip_query_addess: String,
}

/// Mathematical model of a [`Config`].
pub struct ConfigView {
    pub cloudflare_auth_token: Seq<char>,
    pub zone_identifier: Seq<char>,
    pub domain_name: Seq<char>,
    pub ip_query_addess: Seq<char>,
}

impl View for Config {
    type V = ConfigView;

    open spec fn view(&self) -> ConfigView {
        ConfigView {
            cloudflare_auth_token: self.cloudflare_auth_token@,
            zone_identifier: self.zone_identifier@,
            domain_name: self.domain_name@,
            ip_query_addess: self.ip_query_addess@,
        }
    }
}

/// One of the four settings.
#[derive(Clone, Copy, Debug, PartialEq, Eq, Structural)]
pub enum ConfigField {
    CloudflareAuthToken,
    ZoneIdentifier,
    DomainName,
    IpQueryAddess,
}

/// Why a configuration file is not accepted.
#[derive(Clone, Copy, Debug, PartialEq, Eq, Structural)]
pub enum ConfigError {
    /// The file does not hold one JSON object whose values are all strings.
    Malformed,
    /// The object lacks a setting. Of several, the first in the order of
    /// [`ConfigField`] is reported.
    MissingField(ConfigField),
    /// The object has every setting, and a member that is none of them.
    UnknownField,
}

impl ConfigField {
    /// The name under which the setting stands in a configuration file.
    pub open spec fn name(self) -> Seq<char> {
        match self {
            ConfigField::CloudflareAuthToken => "cloudflare_auth_token"@,
            ConfigField::ZoneIdentifier => "zone_identifier"@,
            ConfigField::DomainName => "domain_name"@,
            ConfigField::IpQueryAddess => "ip_query_addess"@,
        }
    }

    /// The name under which the setting stands in a configuration file.
    pub fn key(self) -> (key: &'static str)
        ensures
            key@ == self.name(),
    {
        match self {
            ConfigField::CloudflareAuthToken => "cloudflare_auth_token",
            ConfigField::ZoneIdentifier => "zone_identifier",
            ConfigField::DomainName => "domain_name",
            ConfigField::IpQueryAddess => "ip_query_addess",
        }
    }
}

/// Whether `name` names one of the four settings.
pub open spec fn is_setting(name: Seq<char>) -> bool {
    exists|field: ConfigField| name == #[trigger] field.name()
}

/// The value of the first member of `members` that is called `name`.
pub open spec fn member_value(members: Seq<(Seq<char>, Seq<char>)>, name: Seq<char>) -> Option<
    Seq<char>,
>
    decreases members.len(),
{
    if members.len() == 0 {
        None
    } else if members[0].0 == name {
        Some(members[0].1)
    } else {
        member_value(members.drop_first(), name)
    }
}

/// The settings that the members of a JSON object give: each setting is the
/// value of the member of its name, and the object has no other member.
pub open spec fn config_of_members(members: Seq<(Seq<char>, Seq<char>)>) -> Result<
    ConfigView,
    ConfigError,
> {
    let token = member_value(members, ConfigField::CloudflareAuthToken.name());
    let zone = member_value(members, ConfigField::ZoneIdentifier.name());
    let domain = member_value(members, ConfigField::DomainName.name());
    let url = member_value(members, ConfigField::IpQueryAddess.name());
    if token is None {
        Err(ConfigError::MissingField(ConfigField::CloudflareAuthToken))
    } else if zone is None {
        Err(ConfigError::MissingField(ConfigField::ZoneIdentifier))
    } else if domain is None {
        Err(ConfigError::MissingField(ConfigField::DomainName))
    } else if url is None {
        Err(ConfigError::MissingField(ConfigField::IpQueryAddess))
    } else if exists|i: int| 0 <= i < members.len() && !is_setting(#[trigger] members[i].0) {
        Err(ConfigError::UnknownField)
    } else {
        Ok(
            ConfigView {
                cloudflare_auth_token: token.unwrap(),
                zone_identifier: zone.unwrap(),
                domain_name: domain.unwrap(),
                ip_query_addess: url.unwrap(),
            },
        )
    }
}

impl ConfigView {
    /// The value of one setting.
    pub open spec fn setting(self, field: ConfigField) -> Seq<char> {
        match field {
            ConfigField::CloudflareAuthToken => self.cloudflare_auth_token,
            ConfigField::ZoneIdentifier => self.zone_identifier,
            ConfigField::DomainName => self.domain_name,
            ConfigField::IpQueryAddess => self.ip_query_addess,
        }
    }
}

/// A name has a value among `members` exactly when a member is called so, and
/// the value is that of the first such member.
pub proof fn lemma_member_value(members: Seq<(Seq<char>, Seq<char>)>, name: Seq<char>)
    ensures
        member_value(members, name) is None <==> forall|i: int|
            0 <= i < members.len() ==> (#[trigger] members[i]).0 != name,
        member_value(members, name) matches Some(value) ==> exists|i: int|
            0 <= i < members.len() && #[trigger] members[i] == (name, value) && forall|j: int|
                0 <= j < i ==> (#[trigger] members[j]).0 != name,
    decreases members.len(),
{
    if members.len() > 0 && members[0].0 != name {
        let rest = members.drop_first();
        lemma_member_value(rest, name);
        assert forall|i: int| 0 <= i < rest.len() implies rest[i] == members[i + 1] by {}
        if member_value(rest, name) is None {
            assert forall|i: int| 0 <= i < members.len() implies (#[trigger] members[i]).0
                != name by {
                if i > 0 {
                    assert(rest[i - 1] == members[i]);
                }
            }
        } else {
            let value = member_value(rest, name).unwrap();
            let k = choose|i: int|
                0 <= i < rest.len() && #[trigger] rest[i] == (name, value) && forall|j: int|
                    0 <= j < i ==> (#[trigger] rest[j]).0 != name;
            assert(members[k + 1] == (name, value));
            assert forall|j: int| 0 <= j < k + 1 implies (#[trigger] members[j]).0 != name by {
                if j > 0 {
                    assert(rest[j - 1] == members[j]);
                }
            }
        }
    } else if members.len() > 0 {
        assert(members[0] == (name, members[0].1));
    }
}

/// An object that has each setting once, and no other member, is loaded as
/// the configuration that holds the members' values.
pub proof fn lemma_settings_are_loaded(members: Seq<(Seq<char>, Seq<char>)>, config: ConfigView)
    requires
        forall|i: int, j: int|
            0 <= i < j < members.len() ==> (#[trigger] members[i]).0 != (#[trigger] members[j]).0,
        forall|field: ConfigField|
            members.contains((#[trigger] field.name(), config.setting(field))),
        forall|i: int| 0 <= i < members.len() ==> is_setting((#[trigger] members[i]).0),
    ensures
        config_of_members(members) == Ok::<_, ConfigError>(config),
{
    assert forall|field: ConfigField|
        member_value(members, #[trigger] field.name()) == Some(config.setting(field)) by {
        let name = field.name();
        let wanted = (name, config.setting(field));
        assert(members.contains(wanted));
        let at = choose|i: int| 0 <= i < members.len() && members[i] == wanted;
        lemma_member_value(members, name);
        assert(members[at].0 == name);
        let value = member_value(members, name).unwrap();
        let first = choose|i: int|
            0 <= i < members.len() && #[trigger] members[i] == (name, value) && forall|j: int|
                0 <= j < i ==> (#[trigger] members[j]).0 != name;
        if first < at {
            assert(members[first].0 != members[at].0);
        } else if at < first {
            assert(members[at].0 != members[first].0);
        }
    }
}

/// An object that lacks a setting is not loaded: a missing setting is
/// reported.
pub proof fn lemma_missing_setting_fails(members: Seq<(Seq<char>, Seq<char>)>, field: ConfigField)
    requires
        forall|i: int| 0 <= i < members.len() ==> (#[trigger] members[i]).0 != field.name(),
    ensures
        config_of_members(members) matches Err(ConfigError::MissingField(_)),
{
    lemma_member_value(members, field.name());
}

/// An object with a member that is no setting is not loaded.
pub proof fn lemma_unknown_member_fails(members: Seq<(Seq<char>, Seq<char>)>, i: int)
    requires
        0 <= i < members.len(),
        !is_setting(members[i].0),
    ensures
        config_of_members(members) is Err,
{
}

/// What is loaded from an object is what the object's members say: each
/// setting is the value of a member of the setting's name, and every member
/// is a setting.
pub proof fn lemma_loaded_settings_are_members(
    members: Seq<(Seq<char>, Seq<char>)>,
    field: ConfigField,
)
    requires
        config_of_members(members) is Ok,
    ensures
        members.contains((field.name(), config_of_members(members).unwrap().setting(field))),
        forall|i: int| 0 <= i < members.len() ==> is_setting((#[trigger] members[i]).0),
{
    lemma_member_value(members, field.name());
}

/// The settings that the text of a configuration file gives.
pub open spec fn config_of_text(text: Seq<char>) -> Result<ConfigView, ConfigError> {
    match string_object(text) {
        None => Err(ConfigError::Malformed),
        Some(members) => config_of_members(members),
    }
}

/// Looks up the value of the first member called `name`.
fn find_member(members: &Vec<(String, String)>, name: &str) -> (r: Option<String>)
    ensures
        match r {
            Some(value) => member_value(members_view(members@), name@) == Some(value@),
            None => member_value(members_view(members@), name@) is None,
        },
{
    let wanted = name.to_owned();
    let ghost all = members_view(members@);
    let mut i: usize = 0;
    assert(all.skip(0) =~= all);
    while i < members.len()
        invariant
            i <= members.len(),
            wanted@ == name@,
            all == members_view(members@),
            member_value(all, name@) == member_value(all.skip(i as int), name@),
        decreases members.len() - i,
    {
        proof {
            let rest = all.skip(i as int);
            assert(rest[0] == all[i as int]);
            assert(rest.drop_first() =~= all.skip(i + 1));
        }
        if members[i].0 == wanted {
            return Some(members[i].1.clone());
        }
        i += 1;
    }
    None
}

/// Whether `name` names one of the four settings.
fn names_setting(name: &String) -> (r: bool)
    ensures
        r == is_setting(name@),
{
    let r = *name == ConfigField::CloudflareAuthToken.key().to_owned()
        || *name == ConfigField::ZoneIdentifier.key().to_owned()
        || *name == ConfigField::DomainName.key().to_owned()
        || *name == ConfigField::IpQueryAddess.key().to_owned();
    proof {
        if !r {
            assert forall|field: ConfigField| name@ != #[trigger] field.name() by {
                match field {
                    ConfigField::CloudflareAuthToken => {},
                    ConfigField::ZoneIdentifier => {},
                    ConfigField::DomainName => {},
                    ConfigField::IpQueryAddess => {},
                }
            }
        }
    }
    r
}

/// Whether every member of `members` is called like a setting.
fn all_settings(members: &Vec<(String, String)>) -> (r: bool)
    ensures
        r == forall|i: int|
            0 <= i < members.len() ==> is_setting(#[trigger] members_view(members@)[i].0),
{
    let mut i: usize = 0;
    while i < members.len()
        invariant
            i <= members.len(),
            forall|k: int| 0 <= k < i ==> is_setting(#[trigger] members_view(members@)[k].0),
        decreases members.len() - i,
    {
        if !names_setting(&members[i].0) {
            assert(!is_setting(members_view(members@)[i as int].0));
            return false;
        }
        i += 1;
    }
    true
}

impl Config {
    /// Takes the four settings out of the members of a JSON object. Every
    /// setting must be there, and nothing else.
    pub fn from_members(members: Vec<(String, String)>) -> (r: Result<Config, ConfigError>)
        ensures
            match r {
                Ok(config) => config_of_members(members_view(members@)) == Ok::<_, ConfigError>(
                    config@,
                ),
                Err(e) => config_of_members(members_view(members@)) == Err::<ConfigView, _>(e),
            },
    {
        let cloudflare_auth_token = match find_member(
            &members,
            ConfigField::CloudflareAuthToken.key(),
        ) {
            Some(value) => value,
            None => {
                return Err(ConfigError::MissingField(ConfigField::CloudflareAuthToken));
            },
        };
        let zone_identifier = match find_member(&members, ConfigField::ZoneIdentifier.key()) {
            Some(value) => value,
            None => {
                return Err(ConfigError::MissingField(ConfigField::ZoneIdentifier));
            },
        };
        let domain_name = match find_member(&members, ConfigField::DomainName.key()) {
            Some(value) => value,
            None => {
                return Err(ConfigError::MissingField(ConfigField::DomainName));
            },
        };
        let ip_query_addess = match find_member(&members, ConfigField::IpQueryAddess.key()) {
            Some(value) => value,
            None => {
                return Err(ConfigError::MissingField(ConfigField::IpQueryAddess));
            },
        };
        if !all_settings(&members) {
            return Err(ConfigError::UnknownField);
        }
        Ok(Config { cloudflare_auth_token, zone_identifier, domain_name, ip_query_addess })
    }

    /// Reads the settings from the text of a configuration file: one JSON
    /// object with the four settings as strings and no other member. The
    /// text is read by `serde_json`, which keeps the last value of a name
    /// that the object gives more than once.
    pub fn from_file(contents: &str) -> (r: Result<Config, ConfigError>)
        ensures
            match r {
                Ok(config) => config_of_text(contents@) == Ok::<_, ConfigError>(config@),
                Err(e) => config_of_text(contents@) == Err::<ConfigView, _>(e),
            },
    {
        match parse_string_object(contents) {
            Ok(members) => Config::from_members(members),
            Err(_) => Err(ConfigError::Malformed),
        }
    }
}

} // verus!
