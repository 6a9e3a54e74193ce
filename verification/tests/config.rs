use cloudflare_dyndns::config::Config;
use cloudflare_dyndns::config::ConfigError;
use cloudflare_dyndns::config::ConfigField;

const TOKEN: (&str, &str) = ("cloudflare_auth_token", "\"token-123\"");
const ZONE: (&str, &str) = ("zone_identifier", "\"zone-abc\"");
const DOMAIN: (&str, &str) = ("domain_name", "\"home.example.com\"");
const URL: (&str, &str) = ("ip_query_addess", "\"https://ip.example.com/\"");

/// The text of a JSON object with these members, each given by its name and
/// by its value as it stands in the text.
fn object(members: &[(&str, &str)]) -> String {
    let mut text = String::from("{");
    for (at, (name, value)) in members.iter().enumerate() {
        if at > 0 {
            text.push(',');
        }
        text.push_str(&format!("\n  \"{}\": {}", name, value));
    }
    text.push_str("\n}\n");
    text
}

fn settings() -> Config {
    Config {
        cloudflare_auth_token: "token-123".to_string(),
        zone_identifier: "zone-abc".to_string(),
        domain_name: "home.example.com".to_string(),
        ip_query_addess: "https://ip.example.com/".to_string(),
    }
}

fn member(name: &str, value: &str) -> (String, String) {
    (name.to_string(), value.to_string())
}

fn all_members() -> Vec<(String, String)> {
    vec![
        member("cloudflare_auth_token", "token-123"),
        member("domain_name", "home.example.com"),
        member("ip_query_addess", "https://ip.example.com/"),
        member("zone_identifier", "zone-abc"),
    ]
}

#[test]
fn loads_the_four_settings() {
    let text = object(&[TOKEN, ZONE, DOMAIN, URL]);
    assert_eq!(Config::from_file(&text), Ok(settings()));
}

#[test]
fn loads_the_settings_in_any_order() {
    assert_eq!(Config::from_file(&object(&[URL, DOMAIN, ZONE, TOKEN])), Ok(settings()));
    assert_eq!(Config::from_file(&object(&[DOMAIN, TOKEN, URL, ZONE])), Ok(settings()));
}

#[test]
fn loads_settings_written_on_one_line() {
    let text = "{\"cloudflare_auth_token\":\"t\",\"zone_identifier\":\"z\",\
                \"domain_name\":\"d\",\"ip_query_addess\":\"u\"}";
    let config = Config::from_file(text).unwrap();
    assert_eq!(config.cloudflare_auth_token, "t");
    assert_eq!(config.zone_identifier, "z");
    assert_eq!(config.domain_name, "d");
    assert_eq!(config.ip_query_addess, "u");
}

#[test]
fn decodes_json_escapes_in_values() {
    let text = object(&[
        ("cloudflare_auth_token", "\"a\\\"b\\\\c\""),
        ("zone_identifier", "\"\\u00e9\""),
        ("domain_name", "\"\""),
        ("ip_query_addess", "\"x\\ny\""),
    ]);
    let config = Config::from_file(&text).unwrap();
    assert_eq!(config.cloudflare_auth_token, "a\"b\\c");
    assert_eq!(config.zone_identifier, "\u{e9}");
    assert_eq!(config.domain_name, "");
    assert_eq!(config.ip_query_addess, "x\ny");
}

#[test]
fn reports_the_missing_setting() {
    assert_eq!(
        Config::from_file(&object(&[ZONE, DOMAIN, URL])),
        Err(ConfigError::MissingField(ConfigField::CloudflareAuthToken))
    );
    assert_eq!(
        Config::from_file(&object(&[TOKEN, DOMAIN, URL])),
        Err(ConfigError::MissingField(ConfigField::ZoneIdentifier))
    );
    assert_eq!(
        Config::from_file(&object(&[TOKEN, ZONE, URL])),
        Err(ConfigError::MissingField(ConfigField::DomainName))
    );
    assert_eq!(
        Config::from_file(&object(&[TOKEN, ZONE, DOMAIN])),
        Err(ConfigError::MissingField(ConfigField::IpQueryAddess))
    );
}

#[test]
fn reports_the_first_of_several_missing_settings() {
    assert_eq!(
        Config::from_file("{}"),
        Err(ConfigError::MissingField(ConfigField::CloudflareAuthToken))
    );
    assert_eq!(
        Config::from_file(&object(&[URL, TOKEN])),
        Err(ConfigError::MissingField(ConfigField::ZoneIdentifier))
    );
    assert_eq!(
        Config::from_file(&object(&[ZONE, TOKEN])),
        Err(ConfigError::MissingField(ConfigField::DomainName))
    );
}

#[test]
fn rejects_a_member_that_is_no_setting() {
    let text = object(&[TOKEN, ZONE, DOMAIN, URL, ("ttl", "\"300\"")]);
    assert_eq!(Config::from_file(&text), Err(ConfigError::UnknownField));
}

#[test]
fn rejects_the_correctly_spelt_address_setting() {
    let text = object(&[TOKEN, ZONE, DOMAIN, ("ip_query_address", "\"https://ip.example.com/\"")]);
    assert_eq!(
        Config::from_file(&text),
        Err(ConfigError::MissingField(ConfigField::IpQueryAddess))
    );
}

#[test]
fn rejects_a_setting_that_is_no_string() {
    for value in ["7", "null", "true", "[\"zone-abc\"]", "{\"id\": \"zone-abc\"}", "1.5"] {
        let text = object(&[TOKEN, ("zone_identifier", value), DOMAIN, URL]);
        assert_eq!(Config::from_file(&text), Err(ConfigError::Malformed), "{}", value);
    }
}

#[test]
fn rejects_text_that_is_no_json_object() {
    for text in [
        "",
        "not json",
        "[\"t\", \"z\", \"d\", \"u\"]",
        "\"text\"",
        "{\"cloudflare_auth_token\": \"t\"",
        "{} trailing",
        "{'domain_name': 'd'}",
        "{\"domain_name\": \"d\",}",
    ] {
        assert_eq!(Config::from_file(text), Err(ConfigError::Malformed), "{}", text);
    }
}

#[test]
fn takes_the_settings_out_of_members() {
    assert_eq!(Config::from_members(all_members()), Ok(settings()));
}

#[test]
fn takes_the_first_of_two_members_of_one_name() {
    let mut members = all_members();
    members.push(member("domain_name", "other.example.com"));
    assert_eq!(Config::from_members(members), Ok(settings()));
}

#[test]
fn misses_a_setting_among_members() {
    assert_eq!(
        Config::from_members(Vec::new()),
        Err(ConfigError::MissingField(ConfigField::CloudflareAuthToken))
    );
    for (at, field) in [
        (0, ConfigField::CloudflareAuthToken),
        (1, ConfigField::DomainName),
        (2, ConfigField::IpQueryAddess),
        (3, ConfigField::ZoneIdentifier),
    ] {
        let mut members = all_members();
        members.remove(at);
        assert_eq!(Config::from_members(members), Err(ConfigError::MissingField(field)));
    }
}

#[test]
fn reports_a_missing_setting_before_an_unknown_member() {
    let mut members = all_members();
    members.remove(3);
    members.push(member("zone", "zone-abc"));
    assert_eq!(
        Config::from_members(members),
        Err(ConfigError::MissingField(ConfigField::ZoneIdentifier))
    );
}

#[test]
fn finds_an_unknown_member_among_members() {
    for at in 0..5 {
        let mut members = all_members();
        members.insert(at, member("Domain_Name", "home.example.com"));
        assert_eq!(Config::from_members(members), Err(ConfigError::UnknownField));
    }
}

#[test]
fn names_each_setting_as_the_file_does() {
    assert_eq!(ConfigField::CloudflareAuthToken.key(), "cloudflare_auth_token");
    assert_eq!(ConfigField::ZoneIdentifier.key(), "zone_identifier");
    assert_eq!(ConfigField::DomainName.key(), "domain_name");
    assert_eq!(ConfigField::IpQueryAddess.key(), "ip_query_addess");
}

#[test]
fn keeps_the_last_value_of_a_name_given_twice() {
    let text = object(&[TOKEN, ZONE, ("domain_name", "\"old.example.com\""), URL, DOMAIN]);
    assert_eq!(Config::from_file(&text), Ok(settings()));
}
