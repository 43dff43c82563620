//! Helpers shared by the traits.
use vstd::prelude::*;
use crate::instigator::OwnerReference;
use crate::json::{Json, JsonValue, spec_get, spec_as_i64, spec_as_str};
use crate::strmap::StrMap;

verus! {

/// The common labels of a trait's objects.
pub open spec fn spec_trait_labels(name: Seq<char>, inst_name: Seq<char>) -> Map<Seq<char>, Seq<char>> {
    Map::empty().insert("oam.dev/role"@, "trait"@).insert("app.kubernetes.io/name"@, name).insert(
        "instance-name"@,
        inst_name,
    )
}

/// Generate the common labels for a trait.
pub fn trait_labels(name: String, inst_name: String) -> (labels: StrMap<String>)
    ensures
        labels@ == spec_trait_labels(name@, inst_name@),
{
    let mut labels: StrMap<String> = StrMap::new();
    labels.insert("oam.dev/role".to_string(), "trait".to_string());
    labels.insert("app.kubernetes.io/name".to_string(), name);
    labels.insert("instance-name".to_string(), inst_name);
    labels
}


/// The owners of a trait's objects.
pub type OwnerRefs = Option<Vec<OwnerReference>>;

/// A property of a trait, where there are properties and the property is given.
pub open spec fn property(props: Option<Json>, key: Seq<char>) -> Option<Json> {
    match props {
        Some(p) => spec_get(p, key),
        None => None,
    }
}

/// An integer value, cut to 32 bits as `as i32` cuts it.
pub open spec fn int_value(v: Option<Json>) -> Option<i32> {
    match v {
        Some(j) => match spec_as_i64(j) {
            Some(i) => Some(i as i32),
            None => None,
        },
        None => None,
    }
}

/// A string value.
pub open spec fn str_value(v: Option<Json>) -> Option<Seq<char>> {
    match v {
        Some(j) => spec_as_str(j),
        None => None,
    }
}

/// The value of a parameter, where it is given.
pub open spec fn param(params: Map<Seq<char>, Json>, key: Seq<char>) -> Option<Json> {
    if params.contains_key(key) {
        Some(params[key])
    } else {
        None
    }
}

/// A property of a trait's properties.
pub fn get_property<'a>(props: Option<&'a JsonValue>, key: &str) -> (r: Option<&'a JsonValue>)
    ensures
        opt_json(r) == property(opt_json(props), key@),
{
    match props {
        Some(p) => p.get(key),
        None => None,
    }
}

/// The model of an optional JSON value.
pub open spec fn opt_json(v: Option<&JsonValue>) -> Option<Json> {
    match v {
        Some(j) => Some(j@),
        None => None,
    }
}

/// The value of a parameter.
pub fn get_param<'a>(params: &'a StrMap<JsonValue>, key: &str) -> (r: Option<&'a JsonValue>)
    ensures
        opt_json(r) == param(params@, key@),
{
    params.get(key)
}

/// An integer value cut to 32 bits.
pub fn int_of(v: Option<&JsonValue>) -> (r: Option<i32>)
    ensures
        r == int_value(opt_json(v)),
{
    match v {
        Some(j) => match j.as_i64() {
            Some(i) => Some(i as i32),
            None => None,
        },
        None => None,
    }
}

/// A string value.
pub fn str_of(v: Option<&JsonValue>) -> (r: Option<String>)
    ensures
        match r {
            Some(s) => str_value(opt_json(v)) == Some(s@),
            None => str_value(opt_json(v)) is None,
        },
{
    match v {
        Some(j) => match j.as_str() {
            Some(s) => Some(s.clone()),
            None => None,
        },
        None => None,
    }
}

} // verus!
