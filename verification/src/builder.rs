//! The accumulator: ingests service-info entries one at a time and finalizes
//! them into a validated [`AstarteMod`] or a failure.
//!
//! Entries arrive in no guaranteed order, possibly duplicated, and with no
//! guarantee on the wire type of each value. The accumulator records at most
//! one value per field; finalization succeeds only if the activation flag was
//! observed as `true` and every text field was supplied.

use vstd::prelude::*;

use astarte_fdo_protocol::v101::service_info::ServiceInfo;

use crate::entries::{
    active_key, base_url_key, device_id_key, realm_key, secret_key, Entry, EntryModel, EntryValue,
    ValueModel,
};
use crate::record::{AstarteMod, ModModel};
use crate::wire::{kv_model, kv_models, kv_to_entry, url_syntax_ok, url_valid};

verus! {

/// How reading or finalizing the module failed.
#[derive(Debug, Clone, Copy, PartialEq, Eq, Structural)]
pub enum ModError {
    /// A recognized key carried a value of the wrong wire type.
    Decode,
    /// A text field was delivered more than once, or the activation flag was
    /// delivered twice with conflicting values.
    DuplicateField,
    /// Finalization was reached with the activation flag never observed as
    /// `true`, or with some text field never delivered.
    InvalidModule,
}

impl ModError {
    /// A human-readable description of the failure.
    pub fn message(&self) -> (r: &'static str)
        ensures
            self is Decode ==> r@ == "couldn't decode service info value"@,
            self is DuplicateField ==> r@ == "duplicated astarte service info field"@,
            self is InvalidModule ==> r@ == "invalid astarte service info module"@,
    {
        match self {
            ModError::Decode => "couldn't decode service info value",
            ModError::DuplicateField => "duplicated astarte service info field",
            ModError::InvalidModule => "invalid astarte service info module",
        }
    }
}

/// Mathematical image of the accumulator: what has been observed so far.
#[verifier::ext_equal]
pub ghost struct BuilderModel {
    /// The activation flag, if one was delivered.
    pub active: Option<bool>,
    /// The realm, if one was delivered.
    pub realm: Option<Seq<char>>,
    /// The credential secret, if one was delivered.
    pub secret: Option<Seq<char>>,
    /// The base URL, if one was delivered.
    pub base_url: Option<Seq<char>>,
    /// The device identifier, if one was delivered.
    pub device_id: Option<Seq<char>>,
    /// The advisory URL syntax check of the delivered base URL. Purely a
    /// diagnostic: it never decides success or failure.
    pub url_advisory: Option<bool>,
}

/// The state of a freshly created accumulator: nothing observed.
pub open spec fn empty_model() -> BuilderModel {
    BuilderModel {
        active: None,
        realm: None,
        secret: None,
        base_url: None,
        device_id: None,
        url_advisory: None,
    }
}

/// What ingesting one entry does to the accumulator.
///
/// The activation flag tolerates repetition with an equal value; a repeated
/// text field fails whatever the values; a recognized key with a value of the
/// wrong wire type fails as a decode error; every other key is ignored.
pub open spec fn ingest_model(m: BuilderModel, e: EntryModel) -> Result<BuilderModel, ModError> {
    if e.key == active_key() {
        match e.value {
            ValueModel::Bool(b) => if m.active is Some && m.active.unwrap() != b {
                Err(ModError::DuplicateField)
            } else {
                Ok(BuilderModel { active: Some(b), ..m })
            },
            _ => Err(ModError::Decode),
        }
    } else if e.key == realm_key() {
        match e.value {
            ValueModel::Text(t) => if m.realm is Some {
                Err(ModError::DuplicateField)
            } else {
                Ok(BuilderModel { realm: Some(t), ..m })
            },
            _ => Err(ModError::Decode),
        }
    } else if e.key == secret_key() {
        match e.value {
            ValueModel::Text(t) => if m.secret is Some {
                Err(ModError::DuplicateField)
            } else {
                Ok(BuilderModel { secret: Some(t), ..m })
            },
            _ => Err(ModError::Decode),
        }
    } else if e.key == base_url_key() {
        match e.value {
            ValueModel::Text(t) => if m.base_url is Some {
                Err(ModError::DuplicateField)
            } else {
                Ok(BuilderModel { base_url: Some(t), url_advisory: Some(url_valid(t)), ..m })
            },
            _ => Err(ModError::Decode),
        }
    } else if e.key == device_id_key() {
        match e.value {
            ValueModel::Text(t) => if m.device_id is Some {
                Err(ModError::DuplicateField)
            } else {
                Ok(BuilderModel { device_id: Some(t), ..m })
            },
            _ => Err(ModError::Decode),
        }
    } else {
        Ok(m)
    }
}

/// What ingesting a sequence of entries does: the fold of [`ingest_model`],
/// stopping at the first failure.
pub open spec fn read_model(m: BuilderModel, entries: Seq<EntryModel>) -> Result<
    BuilderModel,
    ModError,
>
    decreases entries.len(),
{
    if entries.len() == 0 {
        Ok(m)
    } else {
        match ingest_model(m, entries[0]) {
            Ok(m2) => read_model(m2, entries.drop_first()),
            Err(e) => Err(e),
        }
    }
}

/// The accumulator state a fold reaches: all of a successful fold, or, on a
/// failure, everything accumulated before the failing entry.
pub open spec fn read_state(m: BuilderModel, entries: Seq<EntryModel>) -> BuilderModel
    decreases entries.len(),
{
    if entries.len() == 0 {
        m
    } else {
        match ingest_model(m, entries[0]) {
            Ok(m2) => read_state(m2, entries.drop_first()),
            Err(_) => m,
        }
    }
}

/// Whether the accumulator has everything a record needs: the activation
/// flag observed as `true` and all four text fields present.
pub open spec fn complete(m: BuilderModel) -> bool {
    m.active == Some(true) && m.realm is Some && m.secret is Some && m.base_url is Some
        && m.device_id is Some
}

/// The record a complete accumulator finalizes into.
pub open spec fn record_of(m: BuilderModel) -> ModModel
    recommends
        complete(m),
{
    ModModel {
        realm: m.realm.unwrap(),
        secret: m.secret.unwrap(),
        base_url: m.base_url.unwrap(),
        device_id: m.device_id.unwrap(),
    }
}

/// Builder for the [`AstarteMod`].
pub struct AstarteModBuilder {
    active: Option<bool>,
    realm: Option<String>,
    secret: Option<String>,
    base_url: Option<String>,
    device_id: Option<String>,
    url_advisory: Option<bool>,
}

impl View for AstarteModBuilder {
    type V = BuilderModel;

    closed spec fn view(&self) -> BuilderModel {
        BuilderModel {
            active: self.active,
            realm: self.realm.deep_view(),
            secret: self.secret.deep_view(),
            base_url: self.base_url.deep_view(),
            device_id: self.device_id.deep_view(),
            url_advisory: self.url_advisory,
        }
    }
}

impl Default for AstarteModBuilder {
    /// A fresh accumulator with nothing observed yet.
    fn default() -> (r: Self)
        ensures
            r@ == empty_model(),
    {
        AstarteModBuilder {
            active: None,
            realm: None,
            secret: None,
            base_url: None,
            device_id: None,
            url_advisory: None,
        }
    }
}

/// Whether a key equals a fixed key string.
fn key_is(key: &String, lit: &str) -> (r: bool)
    ensures
        r == (key@ == lit@),
{
    let owned: String = lit.to_owned();
    *key == owned
}

impl AstarteModBuilder {
    /// Records the activation flag. Repetition with an equal value is
    /// idempotent; a conflicting repetition is a duplicate-field failure.
    fn active(&mut self, entry: Entry) -> (r: Result<(), ModError>)
        requires
            entry@.key == active_key(),
        ensures
            match ingest_model(old(self)@, entry@) {
                Ok(m) => r is Ok && final(self)@ == m,
                Err(e) => r == Err::<(), ModError>(e) && final(self)@ == old(self)@,
            },
    {
        match entry.value {
            EntryValue::Bool(b) => {
                if let Some(prev) = self.active {
                    if prev != b {
                        return Err(ModError::DuplicateField);
                    }
                }
                self.active = Some(b);
                Ok(())
            },
            _ => Err(ModError::Decode),
        }
    }

    /// Records the realm; any second occurrence is a duplicate-field failure.
    fn realm(&mut self, entry: Entry) -> (r: Result<(), ModError>)
        requires
            entry@.key == realm_key(),
        ensures
            match ingest_model(old(self)@, entry@) {
                Ok(m) => r is Ok && final(self)@ == m,
                Err(e) => r == Err::<(), ModError>(e) && final(self)@ == old(self)@,
            },
    {
        proof {
            crate::entries::lemma_keys_distinct();
        }
        match entry.value {
            EntryValue::Text(t) => {
                if self.realm.is_some() {
                    return Err(ModError::DuplicateField);
                }
                self.realm = Some(t);
                Ok(())
            },
            _ => Err(ModError::Decode),
        }
    }

    /// Records the credential secret; any second occurrence is a
    /// duplicate-field failure.
    fn secret(&mut self, entry: Entry) -> (r: Result<(), ModError>)
        requires
            entry@.key == secret_key(),
        ensures
            match ingest_model(old(self)@, entry@) {
                Ok(m) => r is Ok && final(self)@ == m,
                Err(e) => r == Err::<(), ModError>(e) && final(self)@ == old(self)@,
            },
    {
        proof {
            crate::entries::lemma_keys_distinct();
        }
        match entry.value {
            EntryValue::Text(t) => {
                if self.secret.is_some() {
                    return Err(ModError::DuplicateField);
                }
                self.secret = Some(t);
                Ok(())
            },
            _ => Err(ModError::Decode),
        }
    }

    /// Records the base URL; any second occurrence is a duplicate-field
    /// failure. The URL syntax is checked only as an advisory diagnostic: a
    /// malformed URL is still accepted.
    fn base_url(&mut self, entry: Entry) -> (r: Result<(), ModError>)
        requires
            entry@.key == base_url_key(),
        ensures
            match ingest_model(old(self)@, entry@) {
                Ok(m) => r is Ok && final(self)@ == m,
                Err(e) => r == Err::<(), ModError>(e) && final(self)@ == old(self)@,
            },
    {
        proof {
            crate::entries::lemma_keys_distinct();
        }
        match entry.value {
            EntryValue::Text(t) => {
                if self.base_url.is_some() {
                    return Err(ModError::DuplicateField);
                }
                let ok = url_syntax_ok(t.as_str());
                self.url_advisory = Some(ok);
                self.base_url = Some(t);
                Ok(())
            },
            _ => Err(ModError::Decode),
        }
    }

    /// Records the device identifier; any second occurrence is a
    /// duplicate-field failure.
    fn device_id(&mut self, entry: Entry) -> (r: Result<(), ModError>)
        requires
            entry@.key == device_id_key(),
        ensures
            match ingest_model(old(self)@, entry@) {
                Ok(m) => r is Ok && final(self)@ == m,
                Err(e) => r == Err::<(), ModError>(e) && final(self)@ == old(self)@,
            },
    {
        proof {
            crate::entries::lemma_keys_distinct();
        }
        match entry.value {
            EntryValue::Text(t) => {
                if self.device_id.is_some() {
                    return Err(ModError::DuplicateField);
                }
                self.device_id = Some(t);
                Ok(())
            },
            _ => Err(ModError::Decode),
        }
    }

    /// Ingests one entry: dispatches on its key to the matching field, and
    /// ignores every key that is not one of the five recognized ones.
    pub fn ingest(&mut self, entry: Entry) -> (r: Result<(), ModError>)
        ensures
            match ingest_model(old(self)@, entry@) {
                Ok(m) => r is Ok && final(self)@ == m,
                Err(e) => r == Err::<(), ModError>(e) && final(self)@ == old(self)@,
            },
    {
        if key_is(&entry.key, "astarte:active") {
            self.active(entry)
        } else if key_is(&entry.key, "astarte:realm") {
            self.realm(entry)
        } else if key_is(&entry.key, "astarte:secret") {
            self.secret(entry)
        } else if key_is(&entry.key, "astarte:baseurl") {
            self.base_url(entry)
        } else if key_is(&entry.key, "astarte:deviceid") {
            self.device_id(entry)
        } else {
            Ok(())
        }
    }

    /// Ingests a sequence of already-decoded entries, stopping at the first
    /// failure. On failure the accumulator keeps exactly what was
    /// accumulated before the failing entry.
    pub fn read_entries(&mut self, entries: Vec<Entry>) -> (r: Result<(), ModError>)
        ensures
            match read_model(old(self)@, crate::entries::models_of(entries@)) {
                Ok(m) => r is Ok && final(self)@ == m,
                Err(e) => r == Err::<(), ModError>(e) && final(self)@ == read_state(
                    old(self)@,
                    crate::entries::models_of(entries@),
                ),
            },
    {
        let ghost all = crate::entries::models_of(entries@);
        let ghost m0 = self@;
        let mut rest = entries;
        while rest.len() > 0
            invariant
                m0 == old(self)@,
                all == crate::entries::models_of(entries@),
                read_model(m0, all) == read_model(
                    self@,
                    crate::entries::models_of(rest@),
                ),
                read_state(m0, all) == read_state(
                    self@,
                    crate::entries::models_of(rest@),
                ),
            decreases rest.len(),
        {
            let ghost pre = rest@;
            let entry = rest.remove(0);
            proof {
                assert(crate::entries::models_of(pre)[0] == entry@);
                assert(crate::entries::models_of(rest@) =~= crate::entries::models_of(
                    pre,
                ).drop_first());
            }
            match self.ingest(entry) {
                Ok(()) => {},
                Err(e) => {
                    return Err(e);
                },
            }
        }
        Ok(())
    }

    /// Reads a whole service-info stream, decoding each wire entry and
    /// ingesting it, stopping at the first failure. On failure the
    /// accumulator keeps exactly what was accumulated before the failing
    /// entry.
    pub fn read(&mut self, iter: ServiceInfo<'_>) -> (r: Result<(), ModError>)
        ensures
            match read_model(old(self)@, kv_models(iter@)) {
                Ok(m) => r is Ok && final(self)@ == m,
                Err(e) => r == Err::<(), ModError>(e) && final(self)@ == read_state(
                    old(self)@,
                    kv_models(iter@),
                ),
            },
    {
        let ghost all = kv_models(iter@);
        let ghost m0 = self@;
        proof {
            assert(all.skip(0) =~= all);
        }
        let mut i: usize = 0;
        while i < iter.len()
            invariant
                0 <= i <= iter.len(),
                all == kv_models(iter@),
                m0 == old(self)@,
                read_model(m0, all) == read_model(self@, all.skip(i as int)),
                read_state(m0, all) == read_state(self@, all.skip(i as int)),
            decreases iter.len() - i,
        {
            let entry = kv_to_entry(&iter[i]);
            proof {
                assert(all.skip(i as int)[0] == kv_model(iter@[i as int]));
                assert(all.skip(i as int).drop_first() =~= all.skip(i as int + 1));
            }
            match self.ingest(entry) {
                Ok(()) => {},
                Err(e) => {
                    return Err(e);
                },
            }
            i += 1;
        }
        proof {
            assert(all.skip(iter.len() as int) =~= Seq::<EntryModel>::empty());
        }
        Ok(())
    }

    /// Finalizes the accumulator into a record, or reports the module as
    /// invalid when the activation flag was never observed as `true` or a
    /// text field is missing.
    pub fn build(self) -> (r: Result<AstarteMod, ModError>)
        ensures
            complete(self@) ==> r is Ok && r.unwrap()@ == record_of(self@),
            !complete(self@) ==> r == Err::<AstarteMod, ModError>(ModError::InvalidModule),
    {
        match self.build_astarte() {
            Some(m) => Ok(m),
            None => Err(ModError::InvalidModule),
        }
    }

    /// Moves the four text fields out into a record, or returns nothing when
    /// the accumulator is not complete.
    pub fn build_astarte(self) -> (r: Option<AstarteMod>)
        ensures
            complete(self@) ==> r is Some && r.unwrap()@ == record_of(self@),
            !complete(self@) ==> r is None,
    {
        match self.active {
            Some(true) => {},
            _ => {
                return None;
            },
        }
        let realm = match self.realm {
            Some(v) => v,
            None => {
                return None;
            },
        };
        let secret = match self.secret {
            Some(v) => v,
            None => {
                return None;
            },
        };
        let base_url = match self.base_url {
            Some(v) => v,
            None => {
                return None;
            },
        };
        let device_id = match self.device_id {
            Some(v) => v,
            None => {
                return None;
            },
        };
        Some(AstarteMod { realm, secret, base_url, device_id })
    }

    /// The advisory URL diagnostic: whether the delivered base URL, if any,
    /// passed the syntax check. Purely observability.
    pub fn base_url_advisory(&self) -> (r: Option<bool>)
        ensures
            r == self@.url_advisory,
    {
        self.url_advisory
    }
}

} // verus!
