//! The record annotation of a configuration: the JSON of the component
//! records of its last reconciliation, written under its key among the
//! configuration's other annotations.
use vstd::prelude::*;
use crate::instigator::{ComponentRecord, ComponentRecordView, RecordAnnotation};
use crate::json::{Json, JsonValue, json_text};
use crate::schematic::configuration::{ComponentConfiguration, ComponentConfigurationView};
use crate::schematic::parameter::{ParameterValue, ParameterValueView};
use crate::schematic::traits::{TraitBinding, TraitBindingView};
use crate::strmap::{DeepCopy, opt_view, opt_views, views};
use crate::workload_type::Labels;

verus! {

/// A text, or null.
pub open spec fn opt_string_json(o: Option<Seq<char>>) -> Json {
    match o {
        Some(s) => Json::String(s),
        None => Json::Null,
    }
}

/// A JSON value, or null.
pub open spec fn opt_json(o: Option<Json>) -> Json {
    match o {
        Some(v) => v,
        None => Json::Null,
    }
}

/// The JSON of a parameter value: `name`, `value` and `fromParam`.
pub open spec fn parameter_value_json(p: ParameterValueView) -> Json {
    Json::Object(
        seq![
            ("name"@, Json::String(p.name)),
            ("value"@, opt_json(p.value)),
            ("fromParam"@, opt_string_json(p.from_param)),
        ],
    )
}

/// A list of parameter values as a JSON array, or null.
pub open spec fn parameter_values_json(o: Option<Seq<ParameterValueView>>) -> Json {
    match o {
        Some(s) => Json::Array(s.map_values(|p: ParameterValueView| parameter_value_json(p))),
        None => Json::Null,
    }
}

/// The JSON of a trait binding: `name`, `parameterValues` and `properties`.
pub open spec fn trait_binding_json(t: TraitBindingView) -> Json {
    Json::Object(
        seq![
            ("name"@, Json::String(t.name)),
            ("parameterValues"@, parameter_values_json(t.parameter_values)),
            ("properties"@, opt_json(t.properties)),
        ],
    )
}

/// A list of trait bindings as a JSON array, or null.
pub open spec fn trait_bindings_json(o: Option<Seq<TraitBindingView>>) -> Json {
    match o {
        Some(s) => Json::Array(s.map_values(|t: TraitBindingView| trait_binding_json(t))),
        None => Json::Null,
    }
}

/// A list of texts as a JSON array, or null.
pub open spec fn strings_json(o: Option<Seq<Seq<char>>>) -> Json {
    match o {
        Some(s) => Json::Array(s.map_values(|x: Seq<char>| Json::String(x))),
        None => Json::Null,
    }
}

/// The JSON of a component configuration: `name`, `instanceName`,
/// `parameterValues`, `traits` and `applicationScopes`.
pub open spec fn configuration_json(c: ComponentConfigurationView) -> Json {
    Json::Object(
        seq![
            ("name"@, Json::String(c.name)),
            ("instanceName"@, Json::String(c.instance_name)),
            ("parameterValues"@, parameter_values_json(c.parameter_values)),
            ("traits"@, trait_bindings_json(c.traits)),
            ("applicationScopes"@, strings_json(c.application_scopes)),
        ],
    )
}

/// The JSON of a component record: `config` and `version`.
pub open spec fn record_json(r: ComponentRecordView) -> Json {
    Json::Object(seq![("config"@, configuration_json(r.config)), ("version"@, Json::String(r.version))])
}

/// The JSON of the records: an object from instance name to record, in
/// order of instance names.
pub open spec fn records_json(names: Seq<Seq<char>>, records: Seq<ComponentRecordView>) -> Json {
    Json::Object(
        Seq::new(names.len(), |i: int| (names[i], record_json(records[i]))),
    )
}

/// The JSON model of the members of an object built from `(key, value)` pairs.
pub open spec fn members(entries: Seq<(String, JsonValue)>) -> Seq<(Seq<char>, Json)> {
    entries.map_values(|e: (String, JsonValue)| (e.0@, e.1@))
}

fn opt_string_to_json(o: &Option<String>) -> (v: JsonValue)
    ensures
        v@ == opt_string_json(opt_view(*o)),
{
    match o {
        Some(s) => JsonValue::String(s.clone()),
        None => JsonValue::Null,
    }
}

fn opt_json_value(o: &Option<JsonValue>) -> (v: JsonValue)
    ensures
        v@ == opt_json(opt_view(*o)),
{
    match o {
        Some(x) => x.deep_copy(),
        None => JsonValue::Null,
    }
}

/// The JSON of a parameter value.
pub fn parameter_value_to_json(p: &ParameterValue) -> (v: JsonValue)
    ensures
        v@ == parameter_value_json(p@),
{
    let mut e: Vec<(String, JsonValue)> = Vec::new();
    e.push(("name".to_string(), JsonValue::String(p.name.clone())));
    e.push(("value".to_string(), opt_json_value(&p.value)));
    e.push(("fromParam".to_string(), opt_string_to_json(&p.from_param)));
    proof {
        assert(members(e@) =~= seq![
            ("name"@, Json::String(p.name@)),
            ("value"@, opt_json(p@.value)),
            ("fromParam"@, opt_string_json(p@.from_param)),
        ]);
    }
    JsonValue::object(e)
}

fn parameter_values_to_json(o: &Option<Vec<ParameterValue>>) -> (v: JsonValue)
    ensures
        v@ == parameter_values_json(opt_views(*o)),
{
    match o {
        Some(ps) => {
            let mut out: Vec<JsonValue> = Vec::new();
            let n = ps.len();
            let mut i: usize = 0;
            while i < n
                invariant
                    n == ps@.len(),
                    i <= n,
                    out@.len() == i,
                    forall|j: int| 0 <= j < i ==> (#[trigger] out@[j])@ == parameter_value_json(ps@[j]@),
                decreases n - i,
            {
                out.push(parameter_value_to_json(&ps[i]));
                i = i + 1;
            }
            proof {
                assert(out@.map_values(|e: JsonValue| e@) =~= views(ps@).map_values(
                    |p: ParameterValueView| parameter_value_json(p),
                ));
            }
            JsonValue::array(out)
        },
        None => JsonValue::Null,
    }
}

/// The JSON of a trait binding.
pub fn trait_binding_to_json(t: &TraitBinding) -> (v: JsonValue)
    ensures
        v@ == trait_binding_json(t@),
{
    let mut e: Vec<(String, JsonValue)> = Vec::new();
    e.push(("name".to_string(), JsonValue::String(t.name.clone())));
    e.push(("parameterValues".to_string(), parameter_values_to_json(&t.parameter_values)));
    e.push(("properties".to_string(), opt_json_value(&t.properties)));
    proof {
        assert(members(e@) =~= seq![
            ("name"@, Json::String(t.name@)),
            ("parameterValues"@, parameter_values_json(t@.parameter_values)),
            ("properties"@, opt_json(t@.properties)),
        ]);
    }
    JsonValue::object(e)
}

fn trait_bindings_to_json(o: &Option<Vec<TraitBinding>>) -> (v: JsonValue)
    ensures
        v@ == trait_bindings_json(opt_views(*o)),
{
    match o {
        Some(ts) => {
            let mut out: Vec<JsonValue> = Vec::new();
            let n = ts.len();
            let mut i: usize = 0;
            while i < n
                invariant
                    n == ts@.len(),
                    i <= n,
                    out@.len() == i,
                    forall|j: int| 0 <= j < i ==> (#[trigger] out@[j])@ == trait_binding_json(ts@[j]@),
                decreases n - i,
            {
                out.push(trait_binding_to_json(&ts[i]));
                i = i + 1;
            }
            proof {
                assert(out@.map_values(|e: JsonValue| e@) =~= views(ts@).map_values(
                    |t: TraitBindingView| trait_binding_json(t),
                ));
            }
            JsonValue::array(out)
        },
        None => JsonValue::Null,
    }
}

fn strings_to_json(o: &Option<Vec<String>>) -> (v: JsonValue)
    ensures
        v@ == strings_json(opt_views(*o)),
{
    match o {
        Some(ss) => {
            let mut out: Vec<JsonValue> = Vec::new();
            let n = ss.len();
            let mut i: usize = 0;
            while i < n
                invariant
                    n == ss@.len(),
                    i <= n,
                    out@.len() == i,
                    forall|j: int| 0 <= j < i ==> (#[trigger] out@[j])@ == Json::String(ss@[j]@),
                decreases n - i,
            {
                out.push(JsonValue::String(ss[i].clone()));
                i = i + 1;
            }
            proof {
                assert(out@.map_values(|e: JsonValue| e@) =~= views(ss@).map_values(
                    |x: Seq<char>| Json::String(x),
                ));
            }
            JsonValue::array(out)
        },
        None => JsonValue::Null,
    }
}

/// The JSON of a component configuration.
pub fn configuration_to_json(c: &ComponentConfiguration) -> (v: JsonValue)
    ensures
        v@ == configuration_json(c@),
{
    let mut e: Vec<(String, JsonValue)> = Vec::new();
    e.push(("name".to_string(), JsonValue::String(c.name.clone())));
    e.push(("instanceName".to_string(), JsonValue::String(c.instance_name.clone())));
    e.push(("parameterValues".to_string(), parameter_values_to_json(&c.parameter_values)));
    e.push(("traits".to_string(), trait_bindings_to_json(&c.traits)));
    e.push(("applicationScopes".to_string(), strings_to_json(&c.application_scopes)));
    proof {
        assert(members(e@) =~= seq![
            ("name"@, Json::String(c.name@)),
            ("instanceName"@, Json::String(c.instance_name@)),
            ("parameterValues"@, parameter_values_json(c@.parameter_values)),
            ("traits"@, trait_bindings_json(c@.traits)),
            ("applicationScopes"@, strings_json(c@.application_scopes)),
        ]);
    }
    JsonValue::object(e)
}

/// The JSON of a component record.
pub fn record_to_json(r: &ComponentRecord) -> (v: JsonValue)
    ensures
        v@ == record_json(r@),
{
    let mut e: Vec<(String, JsonValue)> = Vec::new();
    e.push(("config".to_string(), configuration_to_json(&r.config)));
    e.push(("version".to_string(), JsonValue::String(r.version.clone())));
    proof {
        assert(members(e@) =~= seq![("config"@, configuration_json(r.config@)), ("version"@, Json::String(r.version@))]);
    }
    JsonValue::object(e)
}

/// The JSON of the records of a reconciliation: an object from instance
/// name to record, in order of instance names.
pub fn records_to_json(records: &RecordAnnotation) -> (v: JsonValue)
    ensures
        v@ == records_json(records.key_seq(), records.value_seq()),
{
    let mut e: Vec<(String, JsonValue)> = Vec::new();
    let n = records.len();
    proof {
        records.lemma_dom();
    }
    let mut i: usize = 0;
    while i < n
        invariant
            n == records.key_seq().len(),
            records.key_seq().len() == records.value_seq().len(),
            i <= n,
            e@.len() == i,
            forall|j: int|
                0 <= j < i ==> (#[trigger] e@[j]).0@ == records.key_seq()[j] && e@[j].1@ == record_json(
                    records.value_seq()[j],
                ),
        decreases n - i,
    {
        proof {
            records.lemma_dom();
        }
        let k = records.key_at(i).clone();
        let r = record_to_json(records.value_at(i));
        e.push((k, r));
        i = i + 1;
    }
    proof {
        records.lemma_dom();
        match records_json(records.key_seq(), records.value_seq()) {
            Json::Object(ms) => {
                assert(members(e@) =~= ms);
            },
            _ => {},
        }
    }
    JsonValue::object(e)
}

/// The annotations of a configuration after a reconciliation: its
/// annotations, with the JSON text of the new records under
/// `component_record_annotation`.
pub fn annotations_after(annotations: Labels, records: &RecordAnnotation) -> (r: Labels)
    ensures
        r@ == annotations@.insert(
            "component_record_annotation"@,
            json_text(records_json(records.key_seq(), records.value_seq())),
        ),
{
    let mut annotations = annotations;
    let text = records_to_json(records).to_json_string();
    annotations.insert("component_record_annotation".to_string(), text);
    annotations
}

} // verus!
