//! Writing the fields of a JSON object as strings.

use crate::auth::roles::{CallContext, CallContextView};
use crate::auth::{guard_kv_write, write_permitted};
use crate::error::{error_text, SpellError, SpellErrorView};
use crate::kv::primitive::{accepted, refused, store_string};
use crate::kv::table::{KvTable, KvValueView};
use crate::value::UnitValue;
use vstd::prelude::*;

verus! {

/// A first-level field of a JSON object: its name, and its value as JSON text.
#[derive(Debug, Clone, PartialEq, Eq)]
pub struct JsonField {
    pub key: String,
    pub value: String,
}

impl View for JsonField {
    type V = (Seq<char>, Seq<char>);

    open spec fn view(&self) -> (Seq<char>, Seq<char>) {
        (self.key@, self.value@)
    }
}

/// The fields as pairs of name and JSON text.
pub open spec fn field_views(fields: Seq<JsonField>) -> Seq<(Seq<char>, Seq<char>)> {
    fields.map_values(|f: JsonField| f@)
}

/// The first-level fields of the JSON object that `json` is, each value
/// written back as JSON text, in the order in which `serde_json` holds them;
/// nothing where `json` is not a JSON object.
pub uninterp spec fn json_object_fields(json: Seq<char>) -> Option<Seq<(Seq<char>, Seq<char>)>>;

#[verifier::external_type_specification]
#[verifier::external_body]
pub struct ExJsonError(serde_json::Error);

/// `serde_json::from_str` into a `serde_json::Map`, each value rendered with
/// its `Display`. The contract claims only that the outcome is a function of
/// the text: `json_object_fields` is the name of that function.
#[verifier::external_body]
fn parse_json_object(json: &str) -> (r: Result<Vec<JsonField>, serde_json::Error>)
    ensures
        match r {
            Ok(fields) => json_object_fields(json@) == Some(field_views(fields@)),
            Err(_) => json_object_fields(json@).is_none(),
        },
{
    let object: serde_json::Map<String, serde_json::Value> = serde_json::from_str(json)?;
    Ok(object.into_iter().map(|(key, value)| JsonField { key, value: value.to_string() }).collect())
}

/// The `Display` of a `serde_json::Error`. Nothing is claimed of the text.
#[verifier::external_body]
fn json_error_text(e: &serde_json::Error) -> (r: String) {
    e.to_string()
}

/// Index of the first field, from `from` on, that the caller may not write.
pub open spec fn first_refusal_from(
    fields: Seq<(Seq<char>, Seq<char>)>,
    ctx: CallContextView,
    from: int,
) -> Option<int>
    decreases fields.len() - from,
{
    if from < 0 || from >= fields.len() {
        None
    } else if !write_permitted(fields[from].0, ctx) {
        Some(from)
    } else {
        first_refusal_from(fields, ctx, from + 1)
    }
}

/// Index of the first field that the caller may not write.
pub open spec fn first_refusal(fields: Seq<(Seq<char>, Seq<char>)>, ctx: CallContextView) -> Option<
    int,
> {
    first_refusal_from(fields, ctx, 0)
}

/// The map after each field was written as a string, in order.
pub open spec fn with_fields(
    m: Map<Seq<char>, KvValueView>,
    fields: Seq<(Seq<char>, Seq<char>)>,
) -> Map<Seq<char>, KvValueView>
    decreases fields.len(),
{
    if fields.len() == 0 {
        m
    } else {
        with_fields(m, fields.drop_last()).insert(
            fields.last().0,
            KvValueView::Text(fields.last().1),
        )
    }
}

/// What a batch of field writes does to the table `before`, and what it
/// returns: all fields are written where the caller may write every key; else
/// nothing is written and the first forbidden key is reported.
pub open spec fn fields_stored(
    before: KvTable,
    after: KvTable,
    r: UnitValue,
    fields: Seq<(Seq<char>, Seq<char>)>,
    ctx: CallContextView,
) -> bool {
    match first_refusal(fields, ctx) {
        None => accepted(r) && after@ == with_fields(before@, fields),
        Some(i) => refused(r, fields[i].0, ctx) && after == before,
    }
}

/// The first refusal is a field that may not be written, and every field
/// before it may.
pub proof fn lemma_first_refusal(
    fields: Seq<(Seq<char>, Seq<char>)>,
    ctx: CallContextView,
    from: int,
)
    requires
        0 <= from <= fields.len(),
    ensures
        match first_refusal_from(fields, ctx, from) {
            Some(i) => from <= i < fields.len() && !write_permitted(fields[i].0, ctx) && forall|j: int|
                from <= j < i ==> write_permitted(#[trigger] fields[j].0, ctx),
            None => forall|j: int|
                from <= j < fields.len() ==> write_permitted(#[trigger] fields[j].0, ctx),
        },
    decreases fields.len() - from,
{
    if from < fields.len() && write_permitted(fields[from].0, ctx) {
        lemma_first_refusal(fields, ctx, from + 1);
    }
}

/// Writes every field as a string under its name, or none of them: if the
/// caller may not write one of the keys, nothing is written.
pub fn store_fields(kv: &mut KvTable, ctx: &CallContext, fields: &Vec<JsonField>) -> (r: UnitValue)
    requires
        old(kv).wf(),
    ensures
        final(kv).wf(),
        fields_stored(*old(kv), *final(kv), r, field_views(fields@), ctx@),
{
    let ghost views = field_views(fields@);
    let n = fields.len();
    let mut i: usize = 0;
    while i < n
        invariant
            i <= n,
            n == fields@.len(),
            views == field_views(fields@),
            first_refusal(views, ctx@) == first_refusal_from(views, ctx@, i as int),
            *kv == *old(kv),
            kv.wf(),
        decreases n - i,
    {
        match guard_kv_write(fields[i].key.as_str(), ctx) {
            Ok(_) => {},
            Err(e) => {
                return UnitValue::from(Err(e));
            },
        }
        i += 1;
    }
    let mut k: usize = 0;
    assert(views.take(0) =~= Seq::<(Seq<char>, Seq<char>)>::empty());
    while k < n
        invariant
            k <= n,
            n == fields@.len(),
            views == field_views(fields@),
            kv.wf(),
            kv@ == with_fields(old(kv)@, views.take(k as int)),
        decreases n - k,
    {
        proof {
            let a = views.take(k as int);
            let b = views.take(k + 1);
            assert(b.drop_last() =~= a);
            assert(b.last() == views[k as int]);
        }
        store_string(kv, fields[k].key.as_str(), fields[k].value.clone());
        k += 1;
    }
    assert(views.take(n as int) =~= views);
    UnitValue::ok()
}

/// Saves every first-level field of the JSON object `json` as a string: the
/// field's value, written as JSON text, under the field's name. Fields of
/// nested objects are not taken apart. Either every field is written or none.
pub fn set_json_fields(kv: &mut KvTable, ctx: &CallContext, json: &str) -> (r: UnitValue)
    requires
        old(kv).wf(),
    ensures
        final(kv).wf(),
        match json_object_fields(json@) {
            Some(fields) => fields_stored(*old(kv), *final(kv), r, fields, ctx@),
            None => !r.success && *final(kv) == *old(kv) && exists|report: Seq<char>|
                r.error@ == error_text(SpellErrorView::NotJsonObject(report)),
        },
{
    match parse_json_object(json) {
        Ok(fields) => store_fields(kv, ctx, &fields),
        Err(e) => {
            let error = SpellError::NotJsonObject(json_error_text(&e));
            let r = UnitValue::from(Err(error));
            assert(r.error@ == error_text(SpellErrorView::NotJsonObject(error->NotJsonObject_0@)));
            r
        },
    }
}

} // verus!
