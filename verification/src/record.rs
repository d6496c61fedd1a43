//! The validated record the accumulator produces.

use vstd::prelude::*;

use crate::entries::{
    active_key, base_url_key, device_id_key, models_of, realm_key, secret_key, Entry, EntryModel,
    EntryValue, ValueModel,
};

verus! {

/// Astarte service-info module.
///
/// The `astarte` module is sent from the server to the device to permit
/// communication with Astarte. A value of this type exists only if the
/// activation flag was observed as `true` and each of the four text fields
/// was supplied exactly once.
#[derive(Debug, Clone)]
pub struct AstarteMod {
    /// Owner's Astarte realm the device belongs to (e.g. `test`).
    pub realm: String,
    /// Credential secret used to obtain the certificate for the MQTT broker;
    /// sensitive, never to be logged.
    pub secret: String,
    /// Base URL where the Astarte pairing API can be found
    /// (e.g. `http://api.astarte.localhost`).
    pub base_url: String,
    /// ID of the device in Astarte (e.g. `2TBn-jNESuuHamE2Zo1anA`).
    pub device_id: String,
}

/// Mathematical image of an [`AstarteMod`]: the four fields as sequences.
#[verifier::ext_equal]
pub ghost struct ModModel {
    pub realm: Seq<char>,
    pub secret: Seq<char>,
    pub base_url: Seq<char>,
    pub device_id: Seq<char>,
}

impl View for AstarteMod {
    type V = ModModel;

    open spec fn view(&self) -> ModModel {
        ModModel {
            realm: self.realm@,
            secret: self.secret@,
            base_url: self.base_url@,
            device_id: self.device_id@,
        }
    }
}

impl PartialEq for AstarteMod {
    fn eq(&self, other: &Self) -> (r: bool) {
        self.realm == other.realm && self.secret == other.secret
            && self.base_url == other.base_url && self.device_id == other.device_id
    }
}

impl vstd::std_specs::cmp::PartialEqSpecImpl for AstarteMod {
    open spec fn obeys_eq_spec() -> bool {
        true
    }

    open spec fn eq_spec(&self, other: &Self) -> bool {
        self@ == other@
    }
}

/// The wire image of a record: the five entries a server would send for it.
pub open spec fn wire_entries(m: ModModel) -> Seq<EntryModel> {
    seq![
        EntryModel { key: active_key(), value: ValueModel::Bool(true) },
        EntryModel { key: realm_key(), value: ValueModel::Text(m.realm) },
        EntryModel { key: secret_key(), value: ValueModel::Text(m.secret) },
        EntryModel { key: base_url_key(), value: ValueModel::Text(m.base_url) },
        EntryModel { key: device_id_key(), value: ValueModel::Text(m.device_id) },
    ]
}

impl AstarteMod {
    /// The entry set a server would send for this record: the activation
    /// flag as `true`, then one occurrence of each text field.
    pub fn to_entries(&self) -> (r: Vec<Entry>)
        ensures
            models_of(r@) == wire_entries(self@),
    {
        let mut v: Vec<Entry> = Vec::new();
        v.push(Entry { key: "astarte:active".to_owned(), value: EntryValue::Bool(true) });
        v.push(Entry { key: "astarte:realm".to_owned(), value: EntryValue::Text(self.realm.clone()) });
        v.push(Entry { key: "astarte:secret".to_owned(), value: EntryValue::Text(self.secret.clone()) });
        v.push(Entry { key: "astarte:baseurl".to_owned(), value: EntryValue::Text(self.base_url.clone()) });
        v.push(Entry { key: "astarte:deviceid".to_owned(), value: EntryValue::Text(self.device_id.clone()) });
        proof {
            assert(models_of(v@) =~= wire_entries(self@));
        }
        v
    }
}

} // verus!
