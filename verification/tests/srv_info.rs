//! Behaviour of the accumulator on already-decoded entries.

use astarte_srv_info::builder::{AstarteModBuilder, ModError};
use astarte_srv_info::entries::{Entry, EntryValue};

fn text_entry(key: &str, val: &str) -> Entry {
    Entry { key: key.to_string(), value: EntryValue::Text(val.to_string()) }
}

fn bool_entry(key: &str, val: bool) -> Entry {
    Entry { key: key.to_string(), value: EntryValue::Bool(val) }
}

fn complete_entries() -> Vec<Entry> {
    vec![
        bool_entry("astarte:active", true),
        text_entry("astarte:realm", "test"),
        text_entry("astarte:secret", "s3cr3t"),
        text_entry("astarte:baseurl", "http://api.astarte.localhost"),
        text_entry("astarte:deviceid", "2TBn-jNESuuHamE2Zo1anA"),
    ]
}

#[test]
fn complete_set_builds_record() {
    let mut b = AstarteModBuilder::default();
    assert!(b.read_entries(complete_entries()).is_ok());
    let record = b.build().unwrap();
    assert_eq!(record.realm, "test");
    assert_eq!(record.secret, "s3cr3t");
    assert_eq!(record.base_url, "http://api.astarte.localhost");
    assert_eq!(record.device_id, "2TBn-jNESuuHamE2Zo1anA");
}

#[test]
fn order_does_not_matter() {
    let mut entries = complete_entries();
    entries.reverse();
    let mut b = AstarteModBuilder::default();
    assert!(b.read_entries(entries).is_ok());
    let record = b.build().unwrap();
    assert_eq!(record.realm, "test");
    assert_eq!(record.device_id, "2TBn-jNESuuHamE2Zo1anA");
}

#[test]
fn missing_fields_invalid_module() {
    let mut b = AstarteModBuilder::default();
    let entries = vec![bool_entry("astarte:active", true), text_entry("astarte:realm", "test")];
    assert!(b.read_entries(entries).is_ok());
    assert_eq!(b.build().unwrap_err(), ModError::InvalidModule);
}

#[test]
fn empty_finalize_invalid_module() {
    let b = AstarteModBuilder::default();
    assert_eq!(b.build().unwrap_err(), ModError::InvalidModule);
}

#[test]
fn duplicate_realm_fails() {
    let mut b = AstarteModBuilder::default();
    let entries = vec![
        bool_entry("astarte:active", true),
        text_entry("astarte:realm", "a"),
        text_entry("astarte:realm", "b"),
    ];
    assert_eq!(b.read_entries(entries).unwrap_err(), ModError::DuplicateField);
}

#[test]
fn duplicate_identical_realm_fails() {
    let mut b = AstarteModBuilder::default();
    let entries = vec![text_entry("astarte:realm", "same"), text_entry("astarte:realm", "same")];
    assert_eq!(b.read_entries(entries).unwrap_err(), ModError::DuplicateField);
}

#[test]
fn inactive_module_invalid() {
    let mut b = AstarteModBuilder::default();
    let entries = vec![
        bool_entry("astarte:active", false),
        text_entry("astarte:realm", "test"),
        text_entry("astarte:secret", "x"),
        text_entry("astarte:baseurl", "u"),
        text_entry("astarte:deviceid", "d"),
    ];
    assert!(b.read_entries(entries).is_ok());
    assert_eq!(b.build().unwrap_err(), ModError::InvalidModule);
}

#[test]
fn unrelated_key_ignored() {
    let mut entries = complete_entries();
    entries.insert(2, text_entry("foo:bar", "baz"));
    let mut b = AstarteModBuilder::default();
    assert!(b.read_entries(entries).is_ok());
    let record = b.build().unwrap();
    assert_eq!(record.realm, "test");
}

#[test]
fn unrecognized_astarte_key_ignored() {
    let mut entries = complete_entries();
    entries.push(bool_entry("astarte:futureflag", false));
    let mut b = AstarteModBuilder::default();
    assert!(b.read_entries(entries).is_ok());
    assert!(b.build().is_ok());
}

#[test]
fn repeated_identical_active_is_idempotent() {
    let mut entries = complete_entries();
    entries.push(bool_entry("astarte:active", true));
    let mut b = AstarteModBuilder::default();
    assert!(b.read_entries(entries).is_ok());
    assert!(b.build().is_ok());
}

#[test]
fn conflicting_active_fails() {
    let mut b = AstarteModBuilder::default();
    let entries = vec![bool_entry("astarte:active", true), bool_entry("astarte:active", false)];
    assert_eq!(b.read_entries(entries).unwrap_err(), ModError::DuplicateField);
}

#[test]
fn text_where_bool_expected_is_decode_error() {
    let mut b = AstarteModBuilder::default();
    let entries = vec![text_entry("astarte:active", "true")];
    assert_eq!(b.read_entries(entries).unwrap_err(), ModError::Decode);
}

#[test]
fn bool_where_text_expected_is_decode_error() {
    let mut b = AstarteModBuilder::default();
    let entries = vec![bool_entry("astarte:realm", true)];
    assert_eq!(b.read_entries(entries).unwrap_err(), ModError::Decode);
}

#[test]
fn opaque_value_on_known_key_is_decode_error() {
    let mut b = AstarteModBuilder::default();
    let entries = vec![Entry {
        key: "astarte:secret".to_string(),
        value: EntryValue::Opaque,
    }];
    assert_eq!(b.read_entries(entries).unwrap_err(), ModError::Decode);
}

#[test]
fn record_round_trips_through_accumulator() {
    let mut b = AstarteModBuilder::default();
    assert!(b.read_entries(complete_entries()).is_ok());
    let record = b.build().unwrap();

    let mut again = AstarteModBuilder::default();
    assert!(again.read_entries(record.to_entries()).is_ok());
    let rebuilt = again.build().unwrap();
    assert_eq!(rebuilt, record);
}

#[test]
fn malformed_base_url_is_advisory_only() {
    let mut b = AstarteModBuilder::default();
    let mut entries = complete_entries();
    entries[3] = text_entry("astarte:baseurl", "u");
    assert!(b.read_entries(entries).is_ok());
    assert_eq!(b.base_url_advisory(), Some(false));
    let record = b.build().unwrap();
    assert_eq!(record.base_url, "u");
}

#[test]
fn well_formed_base_url_passes_advisory() {
    let mut b = AstarteModBuilder::default();
    assert!(b.read_entries(complete_entries()).is_ok());
    assert_eq!(b.base_url_advisory(), Some(true));
}

#[test]
fn build_astarte_requires_completeness() {
    let mut b = AstarteModBuilder::default();
    assert!(b.read_entries(complete_entries()).is_ok());
    assert!(b.build_astarte().is_some());

    let mut partial = AstarteModBuilder::default();
    assert!(partial.read_entries(vec![bool_entry("astarte:active", true)]).is_ok());
    assert!(partial.build_astarte().is_none());
}

#[test]
fn error_messages_describe_the_failure() {
    assert_eq!(ModError::Decode.message(), "couldn't decode service info value");
    assert_eq!(ModError::DuplicateField.message(), "duplicated astarte service info field");
    assert_eq!(ModError::InvalidModule.message(), "invalid astarte service info module");
}
