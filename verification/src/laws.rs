//! Laws of the accumulator, stated over its mathematical model and proved
//! once for every entry set.

use vstd::prelude::*;

use crate::builder::{
    complete, empty_model, ingest_model, read_model, BuilderModel, ModError,
};
use crate::entries::{
    active_key, is_known_key, is_text_key, lemma_keys_distinct, realm_key, secret_key,
    base_url_key, device_id_key, EntryModel, ValueModel,
};
use crate::record::{wire_entries, ModModel};

verus! {

/// How many entries of the set carry the given key.
pub open spec fn count_key(s: Seq<EntryModel>, k: Seq<char>) -> nat
    decreases s.len(),
{
    if s.len() == 0 {
        0
    } else {
        (if s[0].key == k {
            1nat
        } else {
            0nat
        }) + count_key(s.drop_first(), k)
    }
}

/// The text payload of the first entry carrying the given key, if that entry
/// is text.
pub open spec fn first_text(s: Seq<EntryModel>, k: Seq<char>) -> Option<Seq<char>>
    decreases s.len(),
{
    if s.len() == 0 {
        None
    } else if s[0].key == k {
        match s[0].value {
            ValueModel::Text(t) => Some(t),
            _ => None,
        }
    } else {
        first_text(s.drop_first(), k)
    }
}

/// Every entry carrying the given key has a text value.
pub open spec fn all_text(s: Seq<EntryModel>, k: Seq<char>) -> bool
    decreases s.len(),
{
    if s.len() == 0 {
        true
    } else {
        (s[0].key == k ==> s[0].value is Text) && all_text(s.drop_first(), k)
    }
}

/// Some entry delivers the activation flag with the given value.
pub open spec fn has_active_val(s: Seq<EntryModel>, b: bool) -> bool
    decreases s.len(),
{
    if s.len() == 0 {
        false
    } else {
        (s[0].key == active_key() && s[0].value == ValueModel::Bool(b)) || has_active_val(
            s.drop_first(),
            b,
        )
    }
}

/// Every entry delivering the activation flag carries the value `true`.
pub open spec fn actives_all_true(s: Seq<EntryModel>) -> bool
    decreases s.len(),
{
    if s.len() == 0 {
        true
    } else {
        (s[0].key == active_key() ==> s[0].value == ValueModel::Bool(true)) && actives_all_true(
            s.drop_first(),
        )
    }
}

/// Every recognized key carries a value of its expected wire type.
pub open spec fn well_typed(s: Seq<EntryModel>) -> bool
    decreases s.len(),
{
    if s.len() == 0 {
        true
    } else {
        (s[0].key == active_key() ==> s[0].value is Bool) && (is_text_key(s[0].key)
            ==> s[0].value is Text) && well_typed(s.drop_first())
    }
}

/// Some recognized key carries a value of the wrong wire type.
pub open spec fn has_mismatch(s: Seq<EntryModel>) -> bool
    decreases s.len(),
{
    if s.len() == 0 {
        false
    } else {
        (s[0].key == active_key() && !(s[0].value is Bool)) || (is_text_key(s[0].key) && !(
        s[0].value is Text)) || has_mismatch(s.drop_first())
    }
}

/// The accumulator field that stores values of the given text key.
pub open spec fn text_field(m: BuilderModel, k: Seq<char>) -> Option<Seq<char>>
    recommends
        is_text_key(k),
{
    if k == realm_key() {
        m.realm
    } else if k == secret_key() {
        m.secret
    } else if k == base_url_key() {
        m.base_url
    } else {
        m.device_id
    }
}

/// A complete, well-formed entry set: the activation flag delivered at least
/// once and always as `true`, and each of the four text fields delivered
/// exactly once, as text. Entries under any other key are unconstrained.
pub open spec fn wf_complete(s: Seq<EntryModel>) -> bool {
    &&& count_key(s, realm_key()) == 1
    &&& all_text(s, realm_key())
    &&& count_key(s, secret_key()) == 1
    &&& all_text(s, secret_key())
    &&& count_key(s, base_url_key()) == 1
    &&& all_text(s, base_url_key())
    &&& count_key(s, device_id_key()) == 1
    &&& all_text(s, device_id_key())
    &&& count_key(s, active_key()) >= 1
    &&& actives_all_true(s)
}

/// One text field of the accumulator is compatible with the rest of the
/// stream: either already set and never delivered again, or unset and
/// delivered exactly once, as text.
pub open spec fn tf_compat(f: Option<Seq<char>>, s: Seq<EntryModel>, k: Seq<char>) -> bool {
    if f is Some {
        count_key(s, k) == 0
    } else {
        count_key(s, k) == 1 && all_text(s, k)
    }
}

proof fn lemma_read_ok_rec(m: BuilderModel, s: Seq<EntryModel>)
    requires
        m.active is None || m.active == Some(true),
        actives_all_true(s),
        m.active == Some(true) || count_key(s, active_key()) >= 1,
        tf_compat(m.realm, s, realm_key()),
        tf_compat(m.secret, s, secret_key()),
        tf_compat(m.base_url, s, base_url_key()),
        tf_compat(m.device_id, s, device_id_key()),
    ensures
        read_model(m, s) is Ok,
        complete(read_model(m, s).unwrap()),
        read_model(m, s).unwrap().realm == if m.realm is Some {
            m.realm
        } else {
            first_text(s, realm_key())
        },
        read_model(m, s).unwrap().secret == if m.secret is Some {
            m.secret
        } else {
            first_text(s, secret_key())
        },
        read_model(m, s).unwrap().base_url == if m.base_url is Some {
            m.base_url
        } else {
            first_text(s, base_url_key())
        },
        read_model(m, s).unwrap().device_id == if m.device_id is Some {
            m.device_id
        } else {
            first_text(s, device_id_key())
        },
    decreases s.len(),
{
    lemma_keys_distinct();
    if s.len() == 0 {
    } else {
        let e = s[0];
        let rest = s.drop_first();
        let step = ingest_model(m, e);
        assert(step is Ok);
        lemma_read_ok_rec(step.unwrap(), rest);
    }
}

/// Law: a complete, well-formed entry set folds, in whatever order its
/// entries stand, to a complete accumulator holding exactly the supplied
/// values; finalization therefore yields the record of those values.
pub proof fn lemma_complete_set_accumulates(s: Seq<EntryModel>)
    requires
        wf_complete(s),
    ensures
        read_model(empty_model(), s) is Ok,
        complete(read_model(empty_model(), s).unwrap()),
        read_model(empty_model(), s).unwrap().realm == first_text(s, realm_key()),
        read_model(empty_model(), s).unwrap().secret == first_text(s, secret_key()),
        read_model(empty_model(), s).unwrap().base_url == first_text(s, base_url_key()),
        read_model(empty_model(), s).unwrap().device_id == first_text(s, device_id_key()),
{
    lemma_read_ok_rec(empty_model(), s);
}

proof fn lemma_absent_stays_missing(m: BuilderModel, s: Seq<EntryModel>)
    requires
        read_model(m, s) is Ok,
    ensures
        m.realm is None && count_key(s, realm_key()) == 0 ==> read_model(m, s).unwrap().realm
            is None,
        m.secret is None && count_key(s, secret_key()) == 0 ==> read_model(m, s).unwrap().secret
            is None,
        m.base_url is None && count_key(s, base_url_key()) == 0 ==> read_model(
            m,
            s,
        ).unwrap().base_url is None,
        m.device_id is None && count_key(s, device_id_key()) == 0 ==> read_model(
            m,
            s,
        ).unwrap().device_id is None,
        m.active != Some(true) && !has_active_val(s, true) ==> read_model(m, s).unwrap().active
            != Some(true),
    decreases s.len(),
{
    if s.len() == 0 {
    } else {
        let step = ingest_model(m, s[0]);
        if step is Ok {
            lemma_absent_stays_missing(step.unwrap(), s.drop_first());
        }
    }
}

/// Law: when any of the five required signals is missing from the entry set
/// — a text field never delivered, or the activation flag never delivered as
/// `true` — a fold that succeeds is not complete, so finalization fails as
/// an invalid module.
pub proof fn lemma_missing_signal_rejected(s: Seq<EntryModel>)
    requires
        read_model(empty_model(), s) is Ok,
        count_key(s, realm_key()) == 0 || count_key(s, secret_key()) == 0 || count_key(
            s,
            base_url_key(),
        ) == 0 || count_key(s, device_id_key()) == 0 || !has_active_val(s, true),
    ensures
        !complete(read_model(empty_model(), s).unwrap()),
{
    lemma_absent_stays_missing(empty_model(), s);
}

proof fn lemma_text_key_twice_rec(m: BuilderModel, s: Seq<EntryModel>, k: Seq<char>)
    requires
        is_text_key(k),
        count_key(s, k) >= 2 || (text_field(m, k) is Some && count_key(s, k) >= 1),
    ensures
        read_model(m, s) is Err,
    decreases s.len(),
{
    lemma_keys_distinct();
    if s.len() == 0 {
    } else {
        let step = ingest_model(m, s[0]);
        if step is Ok {
            lemma_text_key_twice_rec(step.unwrap(), s.drop_first(), k);
        }
    }
}

proof fn lemma_well_typed_err_duplicate(m: BuilderModel, s: Seq<EntryModel>)
    requires
        well_typed(s),
    ensures
        read_model(m, s) is Err ==> read_model(m, s) == Err::<BuilderModel, ModError>(
            ModError::DuplicateField,
        ),
    decreases s.len(),
{
    if s.len() == 0 {
    } else {
        let step = ingest_model(m, s[0]);
        if step is Ok {
            lemma_well_typed_err_duplicate(step.unwrap(), s.drop_first());
        }
    }
}

/// Law: a text field delivered twice — with equal or different values — can
/// never fold successfully; and when every value is of its expected wire
/// type, the failure is the duplicate-field error.
pub proof fn lemma_duplicate_text_field_rejected(s: Seq<EntryModel>, k: Seq<char>)
    requires
        is_text_key(k),
        count_key(s, k) >= 2,
    ensures
        read_model(empty_model(), s) is Err,
        well_typed(s) ==> read_model(empty_model(), s) == Err::<BuilderModel, ModError>(
            ModError::DuplicateField,
        ),
{
    lemma_text_key_twice_rec(empty_model(), s, k);
    if well_typed(s) {
        lemma_well_typed_err_duplicate(empty_model(), s);
    }
}

proof fn lemma_conflicting_active_rec(m: BuilderModel, s: Seq<EntryModel>)
    requires
        (has_active_val(s, true) && has_active_val(s, false)) || (m.active is Some
            && has_active_val(s, !m.active.unwrap())),
    ensures
        read_model(m, s) is Err,
    decreases s.len(),
{
    if s.len() == 0 {
    } else {
        let step = ingest_model(m, s[0]);
        if step is Ok {
            lemma_conflicting_active_rec(step.unwrap(), s.drop_first());
        }
    }
}

/// Law: an entry set delivering the activation flag both as `true` and as
/// `false` can never fold successfully; when every value is of its expected
/// wire type, the failure is the duplicate-field error.
pub proof fn lemma_conflicting_activation_rejected(s: Seq<EntryModel>)
    requires
        has_active_val(s, true),
        has_active_val(s, false),
    ensures
        read_model(empty_model(), s) is Err,
        well_typed(s) ==> read_model(empty_model(), s) == Err::<BuilderModel, ModError>(
            ModError::DuplicateField,
        ),
{
    lemma_conflicting_active_rec(empty_model(), s);
    if well_typed(s) {
        lemma_well_typed_err_duplicate(empty_model(), s);
    }
}

/// Law: re-delivering the activation flag with the value already recorded is
/// idempotent: no error, and the accumulator is unchanged.
pub proof fn lemma_activation_idempotent(m: BuilderModel, e: EntryModel, b: bool)
    requires
        e.key == active_key(),
        e.value == ValueModel::Bool(b),
        m.active == Some(b),
    ensures
        ingest_model(m, e) == Ok::<BuilderModel, ModError>(m),
{
    assert(BuilderModel { active: Some(b), ..m } =~= m);
}

/// Law: an entry whose key is not one of the five recognized ones never
/// causes failure and never changes the accumulator.
pub proof fn lemma_unrecognized_ignored(m: BuilderModel, e: EntryModel)
    requires
        !is_known_key(e.key),
    ensures
        ingest_model(m, e) == Ok::<BuilderModel, ModError>(m),
{
}

/// Law: dropping an entry with an unrecognized key from anywhere in the
/// stream leaves the fold's outcome untouched: the rest of the entries parse
/// exactly as they would without it.
pub proof fn lemma_unrecognized_entry_dropped(
    m: BuilderModel,
    s1: Seq<EntryModel>,
    e: EntryModel,
    s2: Seq<EntryModel>,
)
    requires
        !is_known_key(e.key),
    ensures
        read_model(m, s1 + seq![e] + s2) == read_model(m, s1 + s2),
    decreases s1.len(),
{
    if s1.len() == 0 {
        assert(s1 + seq![e] + s2 =~= seq![e] + s2);
        assert((seq![e] + s2)[0] == e);
        assert((seq![e] + s2).drop_first() =~= s2);
        assert(s1 + s2 =~= s2);
    } else {
        let h = s1[0];
        assert((s1 + seq![e] + s2)[0] == h);
        assert((s1 + s2)[0] == h);
        match ingest_model(m, h) {
            Ok(m2) => {
                assert((s1 + seq![e] + s2).drop_first() =~= s1.drop_first() + seq![e] + s2);
                assert((s1 + s2).drop_first() =~= s1.drop_first() + s2);
                lemma_unrecognized_entry_dropped(m2, s1.drop_first(), e, s2);
            },
            Err(_) => {},
        }
    }
}

/// Law: a recognized key whose value is of the wrong wire type is a decode
/// failure, never a silent coercion and never ignored.
pub proof fn lemma_type_mismatch_decode(m: BuilderModel, e: EntryModel)
    requires
        (e.key == active_key() && !(e.value is Bool)) || (is_text_key(e.key) && !(e.value
            is Text)),
    ensures
        ingest_model(m, e) == Err::<BuilderModel, ModError>(ModError::Decode),
{
    lemma_keys_distinct();
}

proof fn lemma_mismatch_fails_rec(m: BuilderModel, s: Seq<EntryModel>)
    requires
        has_mismatch(s),
    ensures
        read_model(m, s) is Err,
    decreases s.len(),
{
    lemma_keys_distinct();
    if s.len() == 0 {
    } else {
        let step = ingest_model(m, s[0]);
        if step is Ok {
            lemma_mismatch_fails_rec(step.unwrap(), s.drop_first());
        }
    }
}

/// Law: an entry set in which some recognized key carries a value of the
/// wrong wire type can never fold successfully.
pub proof fn lemma_type_mismatch_rejected(s: Seq<EntryModel>)
    requires
        has_mismatch(s),
    ensures
        read_model(empty_model(), s) is Err,
{
    lemma_mismatch_fails_rec(empty_model(), s);
}

/// Law: round trip — the wire image of any record, fed through a fresh
/// accumulator, folds successfully, and finalizing the fold reconstructs an
/// equal record.
pub proof fn lemma_wire_round_trip(r: ModModel)
    ensures
        read_model(empty_model(), wire_entries(r)) is Ok,
        complete(read_model(empty_model(), wire_entries(r)).unwrap()),
        crate::builder::record_of(read_model(empty_model(), wire_entries(r)).unwrap()) == r,
{
    lemma_keys_distinct();
    let s = wire_entries(r);
    let s1 = s.drop_first();
    let s2 = s1.drop_first();
    let s3 = s2.drop_first();
    let s4 = s3.drop_first();
    let s5 = s4.drop_first();
    assert(s1[0] == s[1] && s1[1] == s[2] && s1[2] == s[3] && s1[3] == s[4]);
    assert(s2[0] == s[2] && s2[1] == s[3] && s2[2] == s[4]);
    assert(s3[0] == s[3] && s3[1] == s[4]);
    assert(s4[0] == s[4]);
    assert(s5.len() == 0);
    let m1 = ingest_model(empty_model(), s[0]).unwrap();
    let m2 = ingest_model(m1, s[1]).unwrap();
    let m3 = ingest_model(m2, s[2]).unwrap();
    let m4 = ingest_model(m3, s[3]).unwrap();
    let m5 = ingest_model(m4, s[4]).unwrap();
    assert(read_model(empty_model(), s) == read_model(m1, s1));
    assert(read_model(m1, s1) == read_model(m2, s2));
    assert(read_model(m2, s2) == read_model(m3, s3));
    assert(read_model(m3, s3) == read_model(m4, s4));
    assert(read_model(m4, s4) == read_model(m5, s5));
    assert(crate::builder::record_of(m5) =~= r);
}

} // verus!

