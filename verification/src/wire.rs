//! Boundary to the onboarding wire format and to the URL syntax check.
//!
//! A wire entry arrives as an opaque key plus CBOR-encoded bytes; this module
//! reduces it to an [`Entry`], the only shape the accumulator reads. The
//! decoding itself is done by the protocol crate and is taken on trust here;
//! everything downstream of [`kv_to_entry`] is verified.

use vstd::prelude::*;

use astarte_fdo_protocol::v101::service_info::ServiceInfoKv;

use crate::entries::{Entry, EntryModel, EntryValue, ValueModel};

verus! {

#[verifier::external_type_specification]
#[verifier::external_body]
pub struct ExServiceInfoKv<'a>(ServiceInfoKv<'a>);

/// The key string a wire entry carries.
pub uninterp spec fn kv_key(kv: ServiceInfoKv) -> Seq<char>;

/// What the wire entry's value decodes to as a boolean, if it is one.
pub uninterp spec fn kv_bool(kv: ServiceInfoKv) -> Option<bool>;

/// What the wire entry's value decodes to as text, if it is text.
pub uninterp spec fn kv_text(kv: ServiceInfoKv) -> Option<Seq<char>>;

/// Whether a string is syntactically a valid URL.
pub uninterp spec fn url_valid(s: Seq<char>) -> bool;

/// Relies on `ServiceInfoKv::key`: returns the entry's key string.
#[verifier::external_body]
fn kv_key_owned(kv: &ServiceInfoKv<'_>) -> (r: String)
    ensures
        r@ == kv_key(*kv),
{
    kv.key().to_owned()
}

/// Relies on `ServiceInfoKv::value::<bool>`: decodes the entry's CBOR value
/// as a boolean; the result depends on the held bytes alone.
#[verifier::external_body]
fn kv_value_bool(kv: &ServiceInfoKv<'_>) -> (r: Option<bool>)
    ensures
        r == kv_bool(*kv),
{
    kv.value::<bool>().ok()
}

/// Relies on `ServiceInfoKv::value::<String>`: decodes the entry's CBOR
/// value as text; the result depends on the held bytes alone.
#[verifier::external_body]
fn kv_value_text(kv: &ServiceInfoKv<'_>) -> (r: Option<String>)
    ensures
        r is Some <==> kv_text(*kv) is Some,
        r is Some ==> r.unwrap()@ == kv_text(*kv).unwrap(),
{
    kv.value::<String>().ok()
}

/// Relies on `url::Url::parse`: whether a string parses under the URL
/// grammar.
#[verifier::external_body]
pub(crate) fn url_syntax_ok(s: &str) -> (r: bool)
    ensures
        r == url_valid(s@),
{
    url::Url::parse(s).is_ok()
}

/// The model of one wire entry: its key, and its value reduced to the two
/// scalar shapes a field can decode. A CBOR value is of one wire type, so at
/// most one of the two decodings succeeds.
pub open spec fn kv_model(kv: ServiceInfoKv) -> EntryModel {
    EntryModel {
        key: kv_key(kv),
        value: if kv_bool(kv) is Some {
            ValueModel::Bool(kv_bool(kv).unwrap())
        } else if kv_text(kv) is Some {
            ValueModel::Text(kv_text(kv).unwrap())
        } else {
            ValueModel::Opaque
        },
    }
}

/// The models of a whole wire stream, entry by entry.
pub open spec fn kv_models(s: Seq<ServiceInfoKv>) -> Seq<EntryModel> {
    s.map_values(|kv: ServiceInfoKv| kv_model(kv))
}

/// Reduces one wire entry to the shape the accumulator reads.
pub fn kv_to_entry(kv: &ServiceInfoKv<'_>) -> (e: Entry)
    ensures
        e@ == kv_model(*kv),
{
    let key = kv_key_owned(kv);
    let value = match kv_value_bool(kv) {
        Some(b) => EntryValue::Bool(b),
        None => match kv_value_text(kv) {
            Some(t) => EntryValue::Text(t),
            None => EntryValue::Opaque,
        },
    };
    Entry { key, value }
}

} // verus!
