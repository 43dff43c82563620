//! Parameters of a component, the values given for them, and their resolution.
use vstd::prelude::*;
use crate::json::{JsonNumber, JsonValue, Json, json_text, number_model, spec_as_str};
use crate::strmap::{StrMap, DeepCopy, Equiv, SpecEq, opt_view, opt_same, views, opt_normal, opt_equivalent};
use crate::strings::str_eq;
use crate::schematic::variable::{debug_quote, debug_text};

verus! {

/// A copy of an optional string.
pub fn copy_opt_string(o: &Option<String>) -> (r: Option<String>)
    ensures
        opt_view(r) == opt_view(*o),
{
    match o {
        Some(s) => Some(s.clone()),
        None => None,
    }
}

/// A copy of an optional JSON value.
pub fn copy_opt_json(o: &Option<JsonValue>) -> (r: Option<JsonValue>)
    ensures
        opt_view(r) == opt_view(*o),
{
    match o {
        Some(v) => Some(v.deep_copy()),
        None => None,
    }
}

/// ParameterType defines the types of parameters for a Parameters object.
///
/// These roughly correlate with JSON Schema primitive types.
#[derive(Clone, Copy, Debug, PartialEq, Eq, Structural)]
pub enum ParameterType {
    Boolean,
    String,
    Number,
    Null,
}

/// Parameter describes a configurable unit on a Component or Application.
///
/// Parameters have primitive types, and may be marked as required. Default values
/// may be provided as well.
#[derive(Clone, Debug, PartialEq)]
pub struct Parameter {
    pub name: String,
    pub description: Option<String>,
    pub parameter_type: ParameterType,
    pub required: bool,
    pub default: Option<JsonValue>,
}

/// A value that is substituted into a parameter.
#[derive(Clone, Debug, PartialEq)]
pub struct ParameterValue {
    pub name: String,
    pub value: Option<JsonValue>,
    pub from_param: Option<String>,
}

/// Resolved parameter values, by parameter name.
pub type ResolvedVals = StrMap<JsonValue>;

/// Parameters are optional unless they say otherwise.
pub fn default_required() -> (b: bool)
    ensures
        !b,
{
    false
}

/// Whether a value has the type a parameter declares.
pub open spec fn type_matches(t: ParameterType, v: Json) -> bool {
    match t {
        ParameterType::Boolean => v is Bool,
        ParameterType::String => v is String,
        ParameterType::Number => v is Number,
        ParameterType::Null => v is Null,
    }
}

/// The message of a value whose type does not match.
pub open spec fn type_error_text(t: ParameterType, name: Seq<char>) -> Seq<char> {
    match t {
        ParameterType::Boolean => "expected boolean value for "@ + name,
        ParameterType::String => "expected string value for "@ + name,
        ParameterType::Number => "expected numeric value for "@ + name,
        ParameterType::Null => "expected null value for "@ + name,
    }
}

/// The message of a required parameter that has no value.
pub open spec fn required_error_text(name: Seq<char>) -> Seq<char> {
    "parameter "@ + name + " is required"@
}

/// The mathematical form of a parameter value.
pub struct ParameterValueView {
    pub name: Seq<char>,
    pub value: Option<Json>,
    pub from_param: Option<Seq<char>>,
}

impl View for ParameterValue {
    type V = ParameterValueView;

    open spec fn view(&self) -> ParameterValueView {
        ParameterValueView { name: self.name@, value: opt_view(self.value), from_param: opt_view(self.from_param) }
    }
}

impl DeepCopy for ParameterValue {
    fn deep_copy(&self) -> (r: Self) {
        self.copy()
    }
}

impl Equiv for ParameterValue {
    open spec fn normal(v: ParameterValueView) -> ParameterValueView {
        ParameterValueView { name: v.name, value: opt_normal::<JsonValue>(v.value), from_param: v.from_param }
    }

    fn equivalent(&self, other: &Self) -> (r: bool) {
        self.name.same(&other.name) && opt_equivalent(&self.value, &other.value) && opt_same(
            &self.from_param,
            &other.from_param,
        )
    }
}

impl ParameterValue {
    /// A copy of the value.
    pub fn copy(&self) -> (r: ParameterValue)
        ensures
            r.name@ == self.name@,
            opt_view(r.value) == opt_view(self.value),
            opt_view(r.from_param) == opt_view(self.from_param),
    {
        ParameterValue {
            name: self.name.clone(),
            value: copy_opt_json(&self.value),
            from_param: copy_opt_string(&self.from_param),
        }
    }
}

impl Parameter {
    /// Checks that a value has the declared type.
    pub fn validate(&self, val: &JsonValue) -> (r: Result<(), String>)
        ensures
            match r {
                Ok(()) => type_matches(self.parameter_type, val@),
                Err(e) => !type_matches(self.parameter_type, val@) && e@ == type_error_text(
                    self.parameter_type,
                    self.name@,
                ),
            },
    {
        match self.parameter_type {
            ParameterType::Boolean => match val.as_bool() {
                Some(_) => Ok(()),
                None => Err("expected boolean value for ".to_string().concat(self.name.as_str())),
            },
            ParameterType::String => match val.as_str() {
                Some(_) => Ok(()),
                None => Err("expected string value for ".to_string().concat(self.name.as_str())),
            },
            ParameterType::Number => if val.is_number() {
                Ok(())
            } else {
                Err("expected numeric value for ".to_string().concat(self.name.as_str()))
            },
            ParameterType::Null => if val.is_null() {
                Ok(())
            } else {
                Err("expected null value for ".to_string().concat(self.name.as_str()))
            },
        }
    }
}

/// The text a resolved value is substituted as: a string's own text, any
/// other value's JSON text.
pub open spec fn value_text(v: Json) -> Seq<char> {
    match v {
        Json::String(s) => s,
        _ => json_text(v),
    }
}

/// The value a `fromParam` reference or a literal value stands for.
pub open spec fn spec_resolve_value(
    params: Map<Seq<char>, Json>,
    from_param: Option<Seq<char>>,
    value: Option<Seq<char>>,
) -> Option<Seq<char>> {
    match from_param {
        Some(p) => if params.contains_key(p) {
            Some(value_text(params[p]))
        } else {
            value
        },
        None => value,
    }
}

/// Resolves a value that may name a parameter: the named parameter's value
/// where it is resolved, and the literal value otherwise.
pub fn resolve_value(params: &ResolvedVals, from_param: &Option<String>, value: &Option<String>) -> (r: Option<String>)
    ensures
        opt_view(r) == spec_resolve_value(params@, opt_view(*from_param), opt_view(*value)),
{
    match from_param {
        Some(p) => match params.get(p.as_str()) {
            Some(i) => match i.as_str() {
                Some(s) => Some(s.clone()),
                None => Some(i.to_json_string()),
            },
            None => copy_opt_string(value),
        },
        None => copy_opt_string(value),
    }
}

/// The value a parameter resolves to: the given value, else the default,
/// else null.
pub open spec fn resolved_value(d: Parameter, values: Map<Seq<char>, Json>) -> Json {
    if values.contains_key(d.name@) {
        values[d.name@]
    } else {
        match d.default {
            Some(x) => x@,
            None => Json::Null,
        }
    }
}

/// Whether a parameter's resolved value is checked against its type: an
/// optional parameter left null is not, since it may be left out.
pub open spec fn type_checked(d: Parameter, v: Json) -> bool {
    d.required || !(v is Null)
}

/// The validation messages of one parameter: a required parameter that is
/// null, and a checked value of the wrong type.
pub open spec fn parameter_errors(d: Parameter, values: Map<Seq<char>, Json>) -> Seq<Seq<char>> {
    let v = resolved_value(d, values);
    (if d.required && v is Null {
        seq![required_error_text(d.name@)]
    } else {
        Seq::empty()
    }) + (if type_checked(d, v) && !type_matches(d.parameter_type, v) {
        seq![type_error_text(d.parameter_type, d.name@)]
    } else {
        Seq::empty()
    })
}

/// A parameter that is not required may be left out: with no value and no
/// default it resolves to null and raises no message.
pub proof fn lemma_optional_parameter_may_be_left_out(d: Parameter, values: Map<Seq<char>, Json>)
    requires
        !d.required,
        !values.contains_key(d.name@),
        d.default is None,
    ensures
        resolved_value(d, values) == Json::Null,
        parameter_errors(d, values).len() == 0,
{
}

/// The validation messages of all parameters, in order.
pub open spec fn all_parameter_errors(defs: Seq<Parameter>, values: Map<Seq<char>, Json>) -> Seq<
    Seq<char>,
>
    decreases defs.len(),
{
    if defs.len() == 0 {
        Seq::empty()
    } else {
        all_parameter_errors(defs.drop_last(), values) + parameter_errors(defs.last(), values)
    }
}

/// The resolved values of all parameters; a later parameter of the same name wins.
pub open spec fn resolve_all(defs: Seq<Parameter>, values: Map<Seq<char>, Json>) -> Map<
    Seq<char>,
    Json,
>
    decreases defs.len(),
{
    if defs.len() == 0 {
        Map::empty()
    } else {
        resolve_all(defs.drop_last(), values).insert(
            defs.last().name@,
            resolved_value(defs.last(), values),
        )
    }
}

/// ValidationErrors collects every failed check of a parameter resolution.
#[derive(Debug)]
pub struct ValidationErrors {
    pub errs: Vec<String>,
}

/// The text of a list of messages as `{:?}` writes a list of strings: each
/// quoted, separated by ", ".
pub open spec fn joined(msgs: Seq<Seq<char>>) -> Seq<char>
    decreases msgs.len(),
{
    if msgs.len() == 0 {
        Seq::empty()
    } else if msgs.len() == 1 {
        debug_text(msgs[0])
    } else {
        joined(msgs.drop_last()) + ", "@ + debug_text(msgs.last())
    }
}

impl ValidationErrors {
    /// The report: "validation failed: " and the list of messages.
    pub fn to_string(&self) -> (s: String)
        ensures
            s@ == "validation failed: ["@ + joined(self.errs@.map_values(|e: String| e@)) + "]"@,
    {
        let mut s = "validation failed: [".to_string();
        let ghost msgs = self.errs@.map_values(|e: String| e@);
        let n = self.errs.len();
        let mut i: usize = 0;
        while i < n
            invariant
                n == self.errs@.len(),
                i <= n,
                msgs == self.errs@.map_values(|e: String| e@),
                s@ == "validation failed: ["@ + joined(msgs.subrange(0, i as int)),
            decreases n - i,
        {
            proof {
                assert(msgs.subrange(0, i + 1).drop_last() =~= msgs.subrange(0, i as int));
            }
            if i > 0 {
                s.append(", ");
            }
            let quoted = debug_quote(self.errs[i].as_str());
            s.append(quoted.as_str());
            proof {
                if i == 0 {
                    assert(msgs.subrange(0, 1) =~= seq![msgs[0]]);
                }
            }
            i = i + 1;
        }
        proof {
            assert(msgs.subrange(0, n as int) =~= msgs);
        }
        s.append("]");
        s
    }
}

/// Resolves the values of a component's parameters against their definitions.
///
/// Each parameter takes the given value, else its default, else null. The
/// resolution fails where a required parameter is null or a value does not
/// have its parameter's type; an optional parameter may be left out, and its
/// null is not checked against its type. The error lists every failure, in
/// the order of the definitions.
pub fn resolve_parameters(definition: &Vec<Parameter>, values: &ResolvedVals) -> (r: Result<
    ResolvedVals,
    ValidationErrors,
>)
    ensures
        (r is Ok) <==> all_parameter_errors(definition@, values@).len() == 0,
        match r {
            Ok(m) => m@ == resolve_all(definition@, values@),
            Err(e) => e.errs@.map_values(|s: String| s@) == all_parameter_errors(
                definition@,
                values@,
            ) && e.errs@.len() > 0,
        },
{
    let mut errors: Vec<String> = Vec::new();
    let mut resolved: ResolvedVals = StrMap::new();
    let n = definition.len();
    let mut i: usize = 0;
    while i < n
        invariant
            n == definition@.len(),
            i <= n,
            errors@.map_values(|s: String| s@) == all_parameter_errors(
                definition@.subrange(0, i as int),
                values@,
            ),
            resolved@ == resolve_all(definition@.subrange(0, i as int), values@),
        decreases n - i,
    {
        let d = &definition[i];
        let ghost prefix = definition@.subrange(0, i + 1);
        proof {
            assert(prefix.drop_last() =~= definition@.subrange(0, i as int));
            assert(prefix.last() == *d);
        }
        let val: JsonValue = match values.get(d.name.as_str()) {
            Some(v) => v.deep_copy(),
            None => match &d.default {
                Some(x) => x.deep_copy(),
                None => JsonValue::Null,
            },
        };
        assert(val@ == resolved_value(*d, values@));
        let ghost before = errors@.map_values(|s: String| s@);
        if d.required && val.is_null() {
            let msg = "parameter ".to_string().concat(d.name.as_str()).concat(" is required");
            errors.push(msg);
        }
        let ghost middle = errors@.map_values(|s: String| s@);
        if d.required || !val.is_null() {
            match d.validate(&val) {
                Err(e) => errors.push(e),
                Ok(()) => {},
            }
        }
        proof {
            let after = errors@.map_values(|s: String| s@);
            let v = resolved_value(*d, values@);
            let req: Seq<Seq<char>> = if d.required && v is Null {
                seq![required_error_text(d.name@)]
            } else {
                Seq::empty()
            };
            let ty: Seq<Seq<char>> = if type_checked(*d, v) && !type_matches(d.parameter_type, v) {
                seq![type_error_text(d.parameter_type, d.name@)]
            } else {
                Seq::empty()
            };
            assert(middle =~= before + req);
            assert(after =~= middle + ty);
            assert(after =~= before + (req + ty));
        }
        resolved.insert(d.name.clone(), val);
        i = i + 1;
    }
    proof {
        assert(definition@.subrange(0, n as int) =~= definition@);
    }
    if errors.len() > 0 {
        return Err(ValidationErrors { errs: errors });
    }
    Ok(resolved)
}

/// The first value in `parent` with the given name.
pub open spec fn first_named(parent: Seq<ParameterValueView>, name: Seq<char>) -> Option<ParameterValueView>
    decreases parent.len(),
{
    if parent.len() == 0 {
        None
    } else if parent[0].name == name {
        Some(parent[0])
    } else {
        first_named(parent.subrange(1, parent.len() as int), name)
    }
}

/// The value a parameter value resolves to against its parent's values: the
/// value of the parent entry it names, where that has one, and its own value
/// otherwise.
pub open spec fn chosen_value(p: ParameterValueView, parent: Seq<ParameterValueView>) -> Option<Json> {
    let from_parent = match p.from_param {
        Some(f) => match first_named(parent, f) {
            Some(q) => q.value,
            None => None,
        },
        None => None,
    };
    match from_parent {
        Some(v) => Some(v),
        None => p.value,
    }
}

/// A parameter value that names a parent entry and resolves to nothing.
pub open spec fn unresolved(p: ParameterValueView, parent: Seq<ParameterValueView>) -> bool {
    p.from_param is Some && chosen_value(p, parent) is None
}

/// The merged values of `current`, in order; a later entry of the same name wins.
pub open spec fn merge_values(current: Seq<ParameterValueView>, parent: Seq<ParameterValueView>) -> Map<
    Seq<char>,
    Json,
>
    decreases current.len(),
{
    if current.len() == 0 {
        Map::empty()
    } else {
        let m = merge_values(current.drop_last(), parent);
        match chosen_value(current.last(), parent) {
            Some(v) => m.insert(current.last().name, v),
            None => m,
        }
    }
}

/// The error of a `fromParam` reference that could not be resolved.
#[derive(Clone, Debug, PartialEq)]
pub struct UnresolvedParameter {
    pub from_param: String,
    pub name: String,
}

impl UnresolvedParameter {
    /// "could not resolve fromParam:<from> for <name>"
    pub fn to_string(&self) -> (s: String)
        ensures
            s@ == "could not resolve fromParam:"@ + self.from_param@ + " for "@ + self.name@,
    {
        "could not resolve fromParam:".to_string().concat(self.from_param.as_str()).concat(
            " for ",
        ).concat(self.name.as_str())
    }
}

fn find_named<'a>(parent: &'a Vec<ParameterValue>, name: &str) -> (r: Option<&'a ParameterValue>)
    ensures
        match r {
            Some(q) => first_named(views(parent@), name@) == Some(q@),
            None => first_named(views(parent@), name@) is None,
        },
{
    let n = parent.len();
    let mut i: usize = 0;
    let ghost pv = views(parent@);
    assert(pv.subrange(0, n as int) =~= pv);
    while i < n
        invariant
            n == parent@.len(),
            pv == views(parent@),
            i <= n,
            first_named(pv, name@) == first_named(pv.subrange(i as int, n as int), name@),
        decreases n - i,
    {
        let ghost rest = pv.subrange(i as int, n as int);
        proof {
            assert(rest.subrange(1, rest.len() as int) =~= pv.subrange(i + 1, n as int));
            assert(rest[0] == parent@[i as int]@);
        }
        if str_eq(parent[i].name.as_str(), name) {
            return Some(&parent[i]);
        }
        i = i + 1;
    }
    None
}

/// Resolve current values with material from parent values and return a map of name/value pairs.
///
/// If the current values have a `from` directive, the `from` will be looked up in parent.
///
/// If a `from` fails to resolve, this will return an error.
pub fn resolve_values(current: &Vec<ParameterValue>, parent: &Vec<ParameterValue>) -> (r: Result<
    ResolvedVals,
    UnresolvedParameter,
>)
    ensures
        (r is Err) <==> exists|i: int| 0 <= i < current@.len() && unresolved(#[trigger] views(current@)[i], views(parent@)),
        match r {
            Ok(m) => m@ == merge_values(views(current@), views(parent@)),
            Err(e) => exists|i: int|
                0 <= i < current@.len() && #[trigger] unresolved(views(current@)[i], views(parent@)) && (forall|j: int|
                    0 <= j < i ==> !unresolved(#[trigger] views(current@)[j], views(parent@))) && Some(e.from_param@)
                    == views(current@)[i].from_param && e.name@ == views(current@)[i].name,
        },
{
    let mut merged: ResolvedVals = StrMap::new();
    let ghost cv = views(current@);
    let ghost pv = views(parent@);
    let n = current.len();
    let mut i: usize = 0;
    while i < n
        invariant
            n == current@.len(),
            cv == views(current@),
            pv == views(parent@),
            i <= n,
            merged@ == merge_values(cv.subrange(0, i as int), pv),
            forall|j: int| 0 <= j < i ==> !unresolved(#[trigger] cv[j], pv),
        decreases n - i,
    {
        let p = &current[i];
        proof {
            let prefix = cv.subrange(0, i + 1);
            assert(prefix.drop_last() =~= cv.subrange(0, i as int));
            assert(prefix.last() == p@);
        }
        let from_parent: Option<JsonValue> = match &p.from_param {
            Some(f) => match find_named(parent, f.as_str()) {
                Some(q) => copy_opt_json(&q.value),
                None => None,
            },
            None => None,
        };
        let new_val: Option<JsonValue> = match from_parent {
            Some(v) => Some(v),
            None => copy_opt_json(&p.value),
        };
        assert(opt_view(new_val) == chosen_value(p@, pv));
        match &p.from_param {
            Some(f) => {
                if new_val.is_none() {
                    assert(unresolved(cv[i as int], pv));
                    return Err(
                        UnresolvedParameter { from_param: f.clone(), name: p.name.clone() },
                    );
                }
            },
            None => {},
        }
        match new_val {
            Some(v) => {
                merged.insert(p.name.clone(), v);
            },
            None => {},
        }
        i = i + 1;
    }
    proof {
        assert(cv.subrange(0, n as int) =~= cv);
    }
    Ok(merged)
}


/// The value of the first parameter value of a name, where it has one.
pub open spec fn spec_extract_value(name: Seq<char>, params: Seq<ParameterValueView>) -> Option<Json> {
    match first_named(params, name) {
        Some(p) => p.value,
        None => None,
    }
}

/// The value of the first parameter value of a name, where it has one.
pub fn extract_value_params(name: &str, params: &Vec<ParameterValue>) -> (r: Option<JsonValue>)
    ensures
        opt_view(r) == spec_extract_value(name@, views(params@)),
{
    match find_named(params, name) {
        Some(p) => match &p.value {
            Some(v) => Some(v.deep_copy()),
            None => None,
        },
        None => None,
    }
}

/// The text of the first parameter value of a name, where it is a string.
pub fn extract_string_params(name: &str, params: &Vec<ParameterValue>) -> (r: Option<String>)
    ensures
        opt_view(r) == match spec_extract_value(name@, views(params@)) {
            Some(Json::String(s)) => Some(s),
            _ => None,
        },
{
    match extract_value_params(name, params) {
        Some(JsonValue::String(s)) => Some(s),
        _ => None,
    }
}

/// The first parameter value of a name, where it is a number.
pub fn extract_number_params(name: &str, params: &Vec<ParameterValue>) -> (r: Option<JsonNumber>)
    ensures
        match r {
            Some(n) => spec_extract_value(name@, views(params@)) == Some(Json::Number(number_model(n))),
            None => !(spec_extract_value(name@, views(params@)) matches Some(Json::Number(_))),
        },
{
    match extract_value_params(name, params) {
        Some(JsonValue::Number(n)) => Some(n),
        _ => None,
    }
}

} // verus!
