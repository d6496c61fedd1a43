//! Behaviour of the accumulator on a real service-info stream: keys with
//! CBOR-encoded values, decoded through the protocol crate.

use astarte_fdo_protocol::v101::service_info::ServiceInfoKv;
use astarte_srv_info::builder::{AstarteModBuilder, ModError};

/// CBOR encoding of a text string.
fn cbor_text(s: &str) -> Vec<u8> {
    let bytes = s.as_bytes();
    let mut v = Vec::new();
    if bytes.len() < 24 {
        v.push(0x60 + bytes.len() as u8);
    } else {
        v.push(0x78);
        v.push(bytes.len() as u8);
    }
    v.extend_from_slice(bytes);
    v
}

const CBOR_TRUE: [u8; 1] = [0xf5];
const CBOR_FALSE: [u8; 1] = [0xf4];
const CBOR_UINT_ONE: [u8; 1] = [0x01];

#[test]
fn wire_stream_builds_record() {
    let realm = cbor_text("test");
    let secret = cbor_text("s3cr3t");
    let baseurl = cbor_text("http://api.astarte.localhost");
    let deviceid = cbor_text("2TBn-jNESuuHamE2Zo1anA");
    let infos = vec![
        ServiceInfoKv::new("astarte:active", &CBOR_TRUE),
        ServiceInfoKv::new("astarte:realm", &realm),
        ServiceInfoKv::new("astarte:secret", &secret),
        ServiceInfoKv::new("astarte:baseurl", &baseurl),
        ServiceInfoKv::new("astarte:deviceid", &deviceid),
    ];
    let mut b = AstarteModBuilder::default();
    assert!(b.read(infos).is_ok());
    let record = b.build().unwrap();
    assert_eq!(record.realm, "test");
    assert_eq!(record.secret, "s3cr3t");
    assert_eq!(record.base_url, "http://api.astarte.localhost");
    assert_eq!(record.device_id, "2TBn-jNESuuHamE2Zo1anA");
}

#[test]
fn wire_text_where_bool_expected_is_decode_error() {
    let text = cbor_text("true");
    let infos = vec![ServiceInfoKv::new("astarte:active", &text)];
    let mut b = AstarteModBuilder::default();
    assert_eq!(b.read(infos).unwrap_err(), ModError::Decode);
}

#[test]
fn wire_bool_where_text_expected_is_decode_error() {
    let infos = vec![ServiceInfoKv::new("astarte:realm", &CBOR_TRUE)];
    let mut b = AstarteModBuilder::default();
    assert_eq!(b.read(infos).unwrap_err(), ModError::Decode);
}

#[test]
fn wire_duplicate_realm_fails() {
    let a = cbor_text("a");
    let b_val = cbor_text("b");
    let infos = vec![
        ServiceInfoKv::new("astarte:realm", &a),
        ServiceInfoKv::new("astarte:realm", &b_val),
    ];
    let mut b = AstarteModBuilder::default();
    assert_eq!(b.read(infos).unwrap_err(), ModError::DuplicateField);
}

#[test]
fn wire_foreign_and_unknown_keys_ignored() {
    let realm = cbor_text("test");
    let secret = cbor_text("x");
    let baseurl = cbor_text("http://api.astarte.localhost");
    let deviceid = cbor_text("d");
    let os = cbor_text("Linux");
    let infos = vec![
        ServiceInfoKv::new("devmod:os", &os),
        ServiceInfoKv::new("astarte:active", &CBOR_TRUE),
        ServiceInfoKv::new("astarte:nummodules", &CBOR_UINT_ONE),
        ServiceInfoKv::new("astarte:realm", &realm),
        ServiceInfoKv::new("astarte:secret", &secret),
        ServiceInfoKv::new("astarte:baseurl", &baseurl),
        ServiceInfoKv::new("astarte:deviceid", &deviceid),
    ];
    let mut b = AstarteModBuilder::default();
    assert!(b.read(infos).is_ok());
    let record = b.build().unwrap();
    assert_eq!(record.realm, "test");
}

#[test]
fn wire_conflicting_active_fails() {
    let infos = vec![
        ServiceInfoKv::new("astarte:active", &CBOR_TRUE),
        ServiceInfoKv::new("astarte:active", &CBOR_FALSE),
    ];
    let mut b = AstarteModBuilder::default();
    assert_eq!(b.read(infos).unwrap_err(), ModError::DuplicateField);
}

#[test]
fn wire_inactive_module_invalid() {
    let realm = cbor_text("test");
    let secret = cbor_text("x");
    let baseurl = cbor_text("u");
    let deviceid = cbor_text("d");
    let infos = vec![
        ServiceInfoKv::new("astarte:active", &CBOR_FALSE),
        ServiceInfoKv::new("astarte:realm", &realm),
        ServiceInfoKv::new("astarte:secret", &secret),
        ServiceInfoKv::new("astarte:baseurl", &baseurl),
        ServiceInfoKv::new("astarte:deviceid", &deviceid),
    ];
    let mut b = AstarteModBuilder::default();
    assert!(b.read(infos).is_ok());
    assert_eq!(b.build().unwrap_err(), ModError::InvalidModule);
}
