//! Service-info entries as the accumulator sees them.
//!
//! The onboarding stream delivers key-value pairs whose values carry a wire
//! type. The fields of this module are either booleans or text, so an entry
//! is modelled with exactly those two scalar shapes; a value of any other
//! wire type is kept as [`EntryValue::Opaque`] and can never decode into a
//! field.

use vstd::prelude::*;

verus! {

/// The decoded scalar payload of one service-info entry.
#[derive(Debug, Clone)]
pub enum EntryValue {
    /// The value was encoded as a boolean.
    Bool(bool),
    /// The value was encoded as text.
    Text(String),
    /// The value was encoded as some other wire type; no field accepts it.
    Opaque,
}

/// One key-value entry of the service-info stream.
///
/// The key is namespaced text of the shape `"<module>:<field>"`; the value is
/// the already-decoded scalar carried under that key.
#[derive(Debug, Clone)]
pub struct Entry {
    /// The namespaced key, e.g. `"astarte:realm"`.
    pub key: String,
    /// The decoded value delivered under the key.
    pub value: EntryValue,
}

/// Mathematical image of an [`EntryValue`].
#[verifier::ext_equal]
pub ghost enum ValueModel {
    Bool(bool),
    Text(Seq<char>),
    Opaque,
}

/// Mathematical image of an [`Entry`]: the key and value as plain sequences.
#[verifier::ext_equal]
pub ghost struct EntryModel {
    pub key: Seq<char>,
    pub value: ValueModel,
}

impl View for EntryValue {
    type V = ValueModel;

    open spec fn view(&self) -> ValueModel {
        match self {
            EntryValue::Bool(b) => ValueModel::Bool(*b),
            EntryValue::Text(s) => ValueModel::Text(s@),
            EntryValue::Opaque => ValueModel::Opaque,
        }
    }
}

impl View for Entry {
    type V = EntryModel;

    open spec fn view(&self) -> EntryModel {
        EntryModel { key: self.key@, value: self.value@ }
    }
}

/// The models of a sequence of entries, element by element.
pub open spec fn models_of(s: Seq<Entry>) -> Seq<EntryModel> {
    s.map_values(|e: Entry| e@)
}

/// Key of the activation flag (boolean, must be `true`).
pub open spec fn active_key() -> Seq<char> {
    "astarte:active"@
}

/// Key of the realm the device belongs to (text).
pub open spec fn realm_key() -> Seq<char> {
    "astarte:realm"@
}

/// Key of the credential secret (text).
pub open spec fn secret_key() -> Seq<char> {
    "astarte:secret"@
}

/// Key of the base URL of the pairing API (text).
pub open spec fn base_url_key() -> Seq<char> {
    "astarte:baseurl"@
}

/// Key of the device identifier (text).
pub open spec fn device_id_key() -> Seq<char> {
    "astarte:deviceid"@
}

/// The four keys whose values are text fields of the record.
pub open spec fn is_text_key(k: Seq<char>) -> bool {
    k == realm_key() || k == secret_key() || k == base_url_key() || k == device_id_key()
}

/// The five keys the accumulator recognizes; every other key is ignored.
pub open spec fn is_known_key(k: Seq<char>) -> bool {
    k == active_key() || is_text_key(k)
}

/// The five recognized keys are pairwise distinct.
pub proof fn lemma_keys_distinct()
    ensures
        active_key() != realm_key(),
        active_key() != secret_key(),
        active_key() != base_url_key(),
        active_key() != device_id_key(),
        realm_key() != secret_key(),
        realm_key() != base_url_key(),
        realm_key() != device_id_key(),
        secret_key() != base_url_key(),
        secret_key() != device_id_key(),
        base_url_key() != device_id_key(),
{
    reveal_strlit("astarte:active");
    reveal_strlit("astarte:realm");
    reveal_strlit("astarte:secret");
    reveal_strlit("astarte:baseurl");
    reveal_strlit("astarte:deviceid");
    assert(active_key().len() == 14);
    assert(realm_key().len() == 13);
    assert(secret_key().len() == 14);
    assert(base_url_key().len() == 15);
    assert(device_id_key().len() == 16);
    assert(active_key()[8] == 'a' && secret_key()[8] == 's');
}

} // verus!
