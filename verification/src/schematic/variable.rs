//! Variables of an application configuration and their substitution into
//! parameter values with the `[fromVariable(NAME)]` syntax.
use vstd::prelude::*;
use crate::json::{JsonValue, Json};
use crate::schematic::parameter::{ParameterValue, ParameterValueView, copy_opt_string};
use crate::strmap::{StrMap, DeepCopy, opt_view, views};
use crate::strings::{seq_lt, str_eq, str_lt, lemma_lt_total, lemma_lt_transitive, lemma_lt_irreflexive};

verus! {

/// A character of the class `[[:word:]]`: an ASCII letter, digit or underscore.
pub open spec fn is_word_char(c: char) -> bool {
    ('0' <= c && c <= '9') || ('A' <= c && c <= 'Z') || ('a' <= c && c <= 'z') || c == '_'
}

/// The text that opens a variable reference.
pub open spec fn reference_open() -> Seq<char> {
    seq!['[', 'f', 'r', 'o', 'm', 'V', 'a', 'r', 'i', 'a', 'b', 'l', 'e', '(']
}

/// The text that closes a variable reference.
pub open spec fn reference_close() -> Seq<char> {
    seq![')', ']']
}

/// A non-empty run of word characters.
pub open spec fn is_variable_name(w: Seq<char>) -> bool {
    w.len() > 0 && forall|i: int| 0 <= i < w.len() ==> is_word_char(#[trigger] w[i])
}

/// The variable that a whole text `[fromVariable(NAME)]` refers to.
pub open spec fn spec_parse_from_variable(s: Seq<char>) -> Option<Seq<char>> {
    let inner = s.subrange(14, s.len() - 2);
    if s.len() >= 16 && s.subrange(0, 14) == reference_open() && s.subrange(s.len() - 2, s.len() as int)
        == reference_close() && is_variable_name(inner) {
        Some(inner)
    } else {
        None
    }
}

/// A reference to a variable parses back to the variable's name.
pub proof fn lemma_reference_round_trip(w: Seq<char>)
    requires
        is_variable_name(w),
    ensures
        spec_parse_from_variable(reference_open() + w + reference_close()) == Some(w),
{
    let s = reference_open() + w + reference_close();
    assert(s.subrange(0, 14) =~= reference_open());
    assert(s.subrange(s.len() - 2, s.len() as int) =~= reference_close());
    assert(s.subrange(14, s.len() - 2) =~= w);
}

/// Only a reference parses: what parses is the reference to its result.
pub proof fn lemma_parse_only_references(s: Seq<char>)
    requires
        spec_parse_from_variable(s) is Some,
    ensures
        s == reference_open() + spec_parse_from_variable(s)->0 + reference_close(),
{
    let w = spec_parse_from_variable(s)->0;
    assert(s =~= s.subrange(0, 14) + s.subrange(14, s.len() - 2) + s.subrange(
        s.len() - 2,
        s.len() as int,
    ));
}

fn is_word(c: char) -> (b: bool)
    ensures
        b == is_word_char(c),
{
    ('0' <= c && c <= '9') || ('A' <= c && c <= 'Z') || ('a' <= c && c <= 'z') || c == '_'
}

/// The name of the variable a text refers to, where the whole text is
/// `[fromVariable(NAME)]` and NAME is a non-empty run of word characters.
pub fn parse_from_variable(input: &str) -> (r: Option<String>)
    ensures
        opt_view(r) == spec_parse_from_variable(input@),
{
    let open = "[fromVariable(";
    let close = ")]";
    proof {
        reveal_strlit("[fromVariable(");
        reveal_strlit(")]");
        assert(open@ =~= reference_open());
        assert(close@ =~= reference_close());
    }
    let n = input.unicode_len();
    if n < 16 {
        return None;
    }
    let mut i: usize = 0;
    while i < 14
        invariant
            n == input@.len(),
            n >= 16,
            i <= 14,
            open@ == reference_open(),
            forall|j: int| 0 <= j < i ==> input@[j] == reference_open()[j],
        decreases 14 - i,
    {
        if input.get_char(i) != open.get_char(i) {
            assert(input@.subrange(0, 14)[i as int] != reference_open()[i as int]);
            return None;
        }
        i = i + 1;
    }
    assert(input@.subrange(0, 14) =~= reference_open());
    if input.get_char(n - 2) != ')' || input.get_char(n - 1) != ']' {
        assert(input@.subrange(n - 2, n as int)[0] == input@[n - 2]);
        assert(input@.subrange(n - 2, n as int)[1] == input@[n - 1]);
        return None;
    }
    assert(input@.subrange(n - 2, n as int) =~= reference_close());
    let ghost inner = input@.subrange(14, n - 2);
    let mut j: usize = 14;
    while j < n - 2
        invariant
            n == input@.len(),
            n >= 16,
            14 <= j <= n - 2,
            inner == input@.subrange(14, n - 2),
            forall|k: int| 14 <= k < j ==> is_word_char(#[trigger] input@[k]),
        decreases n - 2 - j,
    {
        if !is_word(input.get_char(j)) {
            assert(inner[j - 14] == input@[j as int]);
            return None;
        }
        j = j + 1;
    }
    assert forall|k: int| 0 <= k < inner.len() implies is_word_char(#[trigger] inner[k]) by {
        assert(inner[k] == input@[k + 14]);
    }
    if n == 16 {
        return None;
    }
    Some(input.substring_char(14, n - 2).to_string())
}

/// Variables are common values that can be substituted into
/// predefined locations within an application configuration
/// using the [fromVariable(VARNAME)] syntax.
#[derive(Clone, Debug, PartialEq)]
pub struct Variable {
    /// The variable's name (must be unique per configuration).
    pub name: String,
    /// The variable's value.
    pub value: JsonValue,
}

impl Variable {
    /// A copy of the variable.
    pub fn copy(&self) -> (r: Variable)
        ensures
            r.name@ == self.name@,
            r.value@ == self.value@,
    {
        Variable { name: self.name.clone(), value: self.value.deep_copy() }
    }
}

impl From<Variable> for ParameterValue {
    fn from(var: Variable) -> (p: ParameterValue) {
        ParameterValue { name: var.name, value: Some(var.value), from_param: None }
    }
}

impl vstd::std_specs::convert::FromSpecImpl<Variable> for ParameterValue {
    open spec fn obeys_from_spec() -> bool {
        true
    }

    open spec fn from_spec(var: Variable) -> ParameterValue {
        ParameterValue { name: var.name, value: Some(var.value), from_param: None }
    }
}

/// A parameter value's replacement in a variable expansion: the value of the
/// variable its string value refers to (`None` where there is no such
/// variable), and the value itself where it refers to none.
pub open spec fn expanded_value(v: Option<Json>, vars: Map<Seq<char>, Json>) -> Option<Json> {
    match v {
        Some(Json::String(s)) => match spec_parse_from_variable(s) {
            Some(var) => if vars.contains_key(var) {
                Some(vars[var])
            } else {
                None
            },
            None => v,
        },
        _ => v,
    }
}

/// A parameter value that refers to a variable that is not defined.
pub open spec fn refers_to_undefined(v: Option<Json>, vars: Map<Seq<char>, Json>) -> bool {
    match v {
        Some(Json::String(s)) => match spec_parse_from_variable(s) {
            Some(var) => !vars.contains_key(var),
            None => false,
        },
        _ => false,
    }
}

/// The error of a parameter value that refers to an undefined variable.
#[derive(Clone, Debug, PartialEq)]
pub struct UndefinedVariable {
    pub parameter: String,
    pub variable: String,
}

/// The text that `{:?}` writes for a string: quoted and escaped.
pub uninterp spec fn debug_text(s: Seq<char>) -> Seq<char>;

/// Writes a string with `format!("{:?}", ..)`.
///
/// The text is named `debug_text` of the string: std writes the same text for
/// the same string.
#[verifier::external_body]
pub(crate) fn debug_quote(s: &str) -> (r: String)
    ensures
        r@ == debug_text(s@),
{
    format!("{:?}", s)
}

impl UndefinedVariable {
    /// "parameter `<name>` references undefined variable `<variable>`", both quoted.
    pub fn to_string(&self) -> (s: String)
        ensures
            s@ == "parameter `"@ + debug_text(self.parameter@) + "` references undefined variable `"@
                + debug_text(self.variable@) + "`"@,
    {
        let p = debug_quote(self.parameter.as_str());
        let v = debug_quote(self.variable.as_str());
        "parameter `".to_string().concat(p.as_str()).concat("` references undefined variable `").concat(
            v.as_str(),
        ).concat("`")
    }
}

/// Expand any variables in current values using the variables defined in the configuration.
///
/// A value that refers to an undefined variable is set to `None`, and the
/// expansion stops there with an error; the values before it are expanded.
pub fn expand_variables(values: &mut Vec<ParameterValue>, vars: &StrMap<JsonValue>) -> (r: Result<
    (),
    UndefinedVariable,
>)
    ensures
        final(values)@.len() == old(values)@.len(),
        forall|j: int|
            0 <= j < old(values)@.len() ==> (#[trigger] final(values)@[j]).name@ == old(values)@[j].name@
                && opt_view(final(values)@[j].from_param) == opt_view(old(values)@[j].from_param),
        match r {
            Ok(()) => (forall|j: int|
                0 <= j < old(values)@.len() ==> !refers_to_undefined(
                    opt_view(#[trigger] old(values)@[j].value),
                    vars@,
                )) && (forall|j: int|
                0 <= j < old(values)@.len() ==> opt_view(#[trigger] final(values)@[j].value)
                    == expanded_value(opt_view(old(values)@[j].value), vars@)),
            Err(e) => exists|i: int|
                0 <= i < old(values)@.len() && refers_to_undefined(
                    opt_view(#[trigger] old(values)@[i].value),
                    vars@,
                ) && (forall|j: int|
                    0 <= j < i ==> !refers_to_undefined(
                        opt_view(#[trigger] old(values)@[j].value),
                        vars@,
                    ) && opt_view(final(values)@[j].value) == expanded_value(
                        opt_view(old(values)@[j].value),
                        vars@,
                    )) && final(values)@[i].value is None && (forall|j: int|
                    i < j < old(values)@.len() ==> opt_view(#[trigger] final(values)@[j].value)
                        == opt_view(old(values)@[j].value)) && e.parameter@ == old(values)@[i].name@
                    && Some(e.variable@) == spec_parse_from_variable(
                    spec_as_string(opt_view(old(values)@[i].value)),
                ),
        },
{
    let n = values.len();
    let mut i: usize = 0;
    while i < n
        invariant
            n == values@.len(),
            n == old(values)@.len(),
            i <= n,
            forall|j: int|
                0 <= j < n ==> (#[trigger] values@[j]).name@ == old(values)@[j].name@ && opt_view(
                    values@[j].from_param,
                ) == opt_view(old(values)@[j].from_param),
            forall|j: int|
                0 <= j < i ==> !refers_to_undefined(opt_view(#[trigger] old(values)@[j].value), vars@),
            forall|j: int|
                0 <= j < i ==> opt_view(#[trigger] values@[j].value) == expanded_value(
                    opt_view(old(values)@[j].value),
                    vars@,
                ),
            forall|j: int|
                i <= j < n ==> opt_view(#[trigger] values@[j].value) == opt_view(
                    old(values)@[j].value,
                ),
        decreases n - i,
    {
        let reference: Option<String> = match &values[i].value {
            Some(JsonValue::String(s)) => parse_from_variable(s.as_str()),
            _ => None,
        };
        match reference {
            Some(var) => {
                let new_value: Option<JsonValue> = match vars.get(var.as_str()) {
                    Some(x) => Some(x.deep_copy()),
                    None => None,
                };
                let defined = new_value.is_some();
                let p = ParameterValue {
                    name: values[i].name.clone(),
                    value: new_value,
                    from_param: copy_opt_string(&values[i].from_param),
                };
                values.set(i, p);
                if !defined {
                    return Err(UndefinedVariable { parameter: values[i].name.clone(), variable: var });
                }
            },
            None => {},
        }
        i = i + 1;
    }
    Ok(())
}

/// The text of a string value; empty for other values.
pub open spec fn spec_as_string(v: Option<Json>) -> Seq<char> {
    match v {
        Some(Json::String(s)) => s,
        _ => Seq::empty(),
    }
}

/// The variables as a map from name to value; a later variable of the same
/// name wins.
pub open spec fn variable_map(vars: Seq<Variable>) -> Map<Seq<char>, Json>
    decreases vars.len(),
{
    if vars.len() == 0 {
        Map::empty()
    } else {
        variable_map(vars.drop_last()).insert(vars.last().name@, vars.last().value@)
    }
}

/// A parameter value with its variable reference expanded.
pub open spec fn expand_one(p: ParameterValueView, vars: Map<Seq<char>, Json>) -> ParameterValueView {
    ParameterValueView { name: p.name, value: expanded_value(p.value, vars), from_param: p.from_param }
}

/// Parameter values with their variable references expanded.
pub open spec fn expand_all(s: Seq<ParameterValueView>, vars: Map<Seq<char>, Json>) -> Seq<ParameterValueView> {
    s.map_values(|p: ParameterValueView| expand_one(p, vars))
}

/// The variables as a map from name to value.
fn variables_to_map(vars: &Vec<Variable>) -> (map: StrMap<JsonValue>)
    ensures
        map@ == variable_map(vars@),
{
    let mut map: StrMap<JsonValue> = StrMap::new();
    let m = vars.len();
    let mut k: usize = 0;
    while k < m
        invariant
            m == vars@.len(),
            k <= m,
            map@ == variable_map(vars@.subrange(0, k as int)),
        decreases m - k,
    {
        proof {
            let prefix = vars@.subrange(0, k + 1);
            assert(prefix.drop_last() =~= vars@.subrange(0, k as int));
        }
        map.insert(vars[k].name.clone(), vars[k].value.deep_copy());
        k = k + 1;
    }
    assert(vars@.subrange(0, m as int) =~= vars@);
    map
}

/// A copy of a list of parameter values.
pub fn copy_values(values: &Vec<ParameterValue>) -> (out: Vec<ParameterValue>)
    ensures
        out@.len() == values@.len(),
        forall|j: int|
            0 <= j < values@.len() ==> (#[trigger] out@[j]).name@ == values@[j].name@ && opt_view(
                out@[j].from_param,
            ) == opt_view(values@[j].from_param) && opt_view(out@[j].value) == opt_view(
                values@[j].value,
            ),
{
    let mut out: Vec<ParameterValue> = Vec::new();
    let n = values.len();
    let mut i: usize = 0;
    while i < n
        invariant
            n == values@.len(),
            i <= n,
            out@.len() == i,
            forall|j: int|
                0 <= j < i ==> (#[trigger] out@[j]).name@ == values@[j].name@ && opt_view(
                    out@[j].from_param,
                ) == opt_view(values@[j].from_param) && opt_view(out@[j].value) == opt_view(
                    values@[j].value,
                ),
        decreases n - i,
    {
        out.push(values[i].copy());
        i = i + 1;
    }
    out
}

/// Resolve parameter values containing variables: each value that refers
/// to a variable takes that variable's value.
pub fn resolve_variables(values: &Vec<ParameterValue>, vars: &Vec<Variable>) -> (r: Result<
    Vec<ParameterValue>,
    UndefinedVariable,
>)
    ensures
        (r is Err) <==> exists|j: int|
            0 <= j < values@.len() && refers_to_undefined(
                opt_view(#[trigger] values@[j].value),
                variable_map(vars@),
            ),
        match r {
            Ok(out) => views(out@) == expand_all(views(values@), variable_map(vars@)),
            Err(e) => exists|i: int|
                0 <= i < values@.len() && refers_to_undefined(
                    opt_view(#[trigger] values@[i].value),
                    variable_map(vars@),
                ) && (forall|j: int|
                    0 <= j < i ==> !refers_to_undefined(
                        opt_view(#[trigger] values@[j].value),
                        variable_map(vars@),
                    )) && e.parameter@ == values@[i].name@,
        },
{
    let map = variables_to_map(vars);
    let mut out = copy_values(values);
    let ghost out0 = out@;
    let ghost vm = variable_map(vars@);
    match expand_variables(&mut out, &map) {
        Ok(()) => {
            proof {
                assert forall|j: int| 0 <= j < values@.len() implies !refers_to_undefined(
                    opt_view(#[trigger] values@[j].value),
                    vm,
                ) by {
                    assert(opt_view(out0[j].value) == opt_view(values@[j].value));
                    assert(!refers_to_undefined(opt_view(out0[j].value), vm));
                }
                assert forall|j: int| 0 <= j < values@.len() implies (#[trigger] out@[j]).name@ == values@[j].name@
                    && opt_view(out@[j].from_param) == opt_view(values@[j].from_param) && opt_view(
                    out@[j].value,
                ) == expanded_value(opt_view(values@[j].value), vm) by {
                    assert(opt_view(out0[j].value) == opt_view(values@[j].value));
                    assert(out0[j].name@ == values@[j].name@);
                }
                assert(views(out@) =~= expand_all(views(values@), vm));
            }
            Ok(out)
        },
        Err(e) => {
            proof {
                let i = choose|i: int|
                    0 <= i < out0.len() && refers_to_undefined(
                        opt_view(#[trigger] out0[i].value),
                        vm,
                    ) && (forall|j: int|
                        0 <= j < i ==> !refers_to_undefined(
                            opt_view(#[trigger] out0[j].value),
                            vm,
                        ) && opt_view(out@[j].value) == expanded_value(
                            opt_view(out0[j].value),
                            vm,
                        )) && out@[i].value is None && (forall|j: int|
                        i < j < out0.len() ==> opt_view(#[trigger] out@[j].value)
                            == opt_view(out0[j].value)) && e.parameter@ == out0[i].name@
                        && Some(e.variable@) == spec_parse_from_variable(
                        spec_as_string(opt_view(out0[i].value)),
                    );
                assert(opt_view(out0[i].value) == opt_view(values@[i].value));
                assert(refers_to_undefined(opt_view(values@[i].value), vm));
                assert forall|j: int| 0 <= j < i implies !refers_to_undefined(
                    opt_view(#[trigger] values@[j].value),
                    vm,
                ) by {
                    assert(opt_view(out0[j].value) == opt_view(values@[j].value));
                    assert(!refers_to_undefined(opt_view(out0[j].value), vm));
                }
            }
            Err(e)
        },
    }
}

/// The names of `s` ascend strictly.
pub open spec fn names_ascending(s: Seq<Variable>) -> bool {
    forall|i: int, j: int| 0 <= i < j < s.len() ==> seq_lt(#[trigger] s[i].name@, #[trigger] s[j].name@)
}

/// `s` holds a variable of this name and value.
pub open spec fn has_variable(s: Seq<Variable>, name: Seq<char>, value: Json) -> bool {
    exists|j: int| 0 <= j < s.len() && s[j].name@ == name && s[j].value@ == value
}

/// `s` holds a variable of this name.
pub open spec fn has_name(s: Seq<Variable>, name: Seq<char>) -> bool {
    exists|j: int| 0 <= j < s.len() && s[j].name@ == name
}

/// Adds a copy of `v` to a list ascending by name, unless the list holds its name.
fn insert_by_name(out: &mut Vec<Variable>, v: &Variable)
    requires
        names_ascending(old(out)@),
    ensures
        names_ascending(final(out)@),
        has_name(final(out)@, v.name@),
        forall|i: int|
            0 <= i < final(out)@.len() ==> has_variable(old(out)@, (#[trigger] final(out)@[i]).name@, final(out)@[i].value@)
                || (final(out)@[i].name@ == v.name@ && final(out)@[i].value@ == v.value@),
        forall|j: int|
            0 <= j < old(out)@.len() ==> has_variable(final(out)@, (#[trigger] old(out)@[j]).name@, old(out)@[j].value@),
{
    let m = out.len();
    let mut p: usize = 0;
    while p < m && str_lt(out[p].name.as_str(), v.name.as_str())
        invariant
            m == out@.len(),
            p <= m,
            forall|i: int| 0 <= i < p ==> seq_lt((#[trigger] out@[i]).name@, v.name@),
        decreases m - p,
    {
        p = p + 1;
    }
    let ghost old_out = out@;
    if p < m && str_eq(out[p].name.as_str(), v.name.as_str()) {
        assert(out@[p as int].name@ == v.name@);
        assert forall|j: int| 0 <= j < old_out.len() implies has_variable(out@, (#[trigger] old_out[j]).name@, old_out[j].value@) by {
            assert(out@[j] == old_out[j]);
        }
        assert forall|i: int| 0 <= i < out@.len() implies has_variable(old_out, (#[trigger] out@[i]).name@, out@[i].value@) by {
            assert(out@[i] == old_out[i]);
        }
        return;
    }
    proof {
        if p < m {
            lemma_lt_total(out@[p as int].name@, v.name@);
        }
    }
    out.insert(p, v.copy());
    proof {
        assert forall|a: int, b: int| 0 <= a < b < out@.len() implies seq_lt(
            #[trigger] out@[a].name@,
            #[trigger] out@[b].name@,
        ) by {
            if b < p {
                assert(seq_lt(old_out[a].name@, old_out[b].name@));
            } else if b == p {
                assert(seq_lt(old_out[a].name@, v.name@));
            } else if a == p {
                assert(out@[b] == old_out[b - 1]);
                if b - 1 > p {
                    assert(seq_lt(old_out[p as int].name@, old_out[b - 1].name@));
                    lemma_lt_transitive(v.name@, old_out[p as int].name@, old_out[b - 1].name@);
                }
            } else if a < p {
                assert(out@[b] == old_out[b - 1]);
                if b - 1 > p {
                    assert(seq_lt(old_out[p as int].name@, old_out[b - 1].name@));
                    lemma_lt_transitive(v.name@, old_out[p as int].name@, old_out[b - 1].name@);
                }
                lemma_lt_transitive(old_out[a].name@, v.name@, old_out[b - 1].name@);
            } else {
                assert(out@[a] == old_out[a - 1]);
                assert(out@[b] == old_out[b - 1]);
                assert(seq_lt(old_out[a - 1].name@, old_out[b - 1].name@));
            }
        }
        assert(out@[p as int].name@ == v.name@);
        assert forall|i: int| 0 <= i < out@.len() implies has_variable(old_out, (#[trigger] out@[i]).name@, out@[i].value@)
            || (out@[i].name@ == v.name@ && out@[i].value@ == v.value@) by {
            if i < p {
                assert(out@[i] == old_out[i]);
            } else if i > p {
                assert(out@[i] == old_out[i - 1]);
            }
        }
        assert forall|j: int| 0 <= j < old_out.len() implies has_variable(out@, (#[trigger] old_out[j]).name@, old_out[j].value@) by {
            if j < p {
                assert(out@[j] == old_out[j]);
            } else {
                assert(out@[j + 1] == old_out[j]);
            }
        }
    }
}

/// Sorts variables by name and keeps one variable of each name.
///
/// Which of several variables of one name is kept is not promised.
pub fn dedup(values: &mut Vec<Variable>)
    ensures
        names_ascending(final(values)@),
        forall|i: int|
            0 <= i < final(values)@.len() ==> has_variable(old(values)@, (#[trigger] final(values)@[i]).name@, final(values)@[i].value@),
        forall|j: int|
            0 <= j < old(values)@.len() ==> has_name(final(values)@, (#[trigger] old(values)@[j]).name@),
{
    let mut out: Vec<Variable> = Vec::new();
    let n = values.len();
    let mut k: usize = 0;
    while k < n
        invariant
            n == values@.len(),
            values@ == old(values)@,
            k <= n,
            names_ascending(out@),
            forall|i: int|
                0 <= i < out@.len() ==> has_variable(old(values)@.subrange(0, k as int), (#[trigger] out@[i]).name@, out@[i].value@),
            forall|j: int|
                0 <= j < k ==> has_name(out@, (#[trigger] old(values)@[j]).name@),
        decreases n - k,
    {
        let ghost before = out@;
        let ghost prefix = old(values)@.subrange(0, k + 1);
        insert_by_name(&mut out, &values[k]);
        proof {
            assert forall|i: int| 0 <= i < out@.len() implies has_variable(prefix, (#[trigger] out@[i]).name@, out@[i].value@) by {
                if out@[i].name@ == values@[k as int].name@ && out@[i].value@ == values@[k as int].value@ {
                    assert(prefix[k as int] == values@[k as int]);
                } else {
                    let j0 = choose|j: int| 0 <= j < before.len() && before[j].name@ == out@[i].name@ && before[j].value@ == out@[i].value@;
                    assert(has_variable(old(values)@.subrange(0, k as int), before[j0].name@, before[j0].value@));
                    let j1 = choose|j: int| 0 <= j < k && old(values)@.subrange(0, k as int)[j].name@ == before[j0].name@
                        && old(values)@.subrange(0, k as int)[j].value@ == before[j0].value@;
                    assert(prefix[j1] == old(values)@.subrange(0, k as int)[j1]);
                }
            }
            assert forall|j: int| 0 <= j < k + 1 implies has_name(out@, (#[trigger] old(values)@[j]).name@) by {
                if j < k {
                    assert(has_name(before, old(values)@[j].name@));
                    let i0 = choose|i: int| 0 <= i < before.len() && before[i].name@ == old(values)@[j].name@;
                    assert(has_variable(out@, before[i0].name@, before[i0].value@));
                }
            }
        }
        k = k + 1;
    }
    assert(old(values)@.subrange(0, n as int) =~= old(values)@);
    *values = out;
}

/// Transform a vector of variables into parameter values: one value per
/// variable name, in ascending order of names.
pub fn get_variable_values(vars: Option<Vec<Variable>>) -> (r: Vec<ParameterValue>)
    ensures
        forall|i: int| 0 <= i < r@.len() ==> (#[trigger] r@[i]).from_param is None && r@[i].value is Some,
        forall|i: int, j: int| 0 <= i < j < r@.len() ==> seq_lt(#[trigger] r@[i].name@, #[trigger] r@[j].name@),
        forall|i: int| 0 <= i < r@.len() ==> has_variable(given_variables(vars), (#[trigger] r@[i]).name@, r@[i].value->0@),
        forall|j: int| 0 <= j < given_variables(vars).len() ==> has_value_named(r@, (#[trigger] given_variables(vars)[j]).name@),
{
    let ghost given = given_variables(vars);
    let mut vars = match vars {
        Some(v) => v,
        None => Vec::new(),
    };
    assert(vars@ == given);
    dedup(&mut vars);
    let mut out: Vec<ParameterValue> = Vec::new();
    let n = vars.len();
    let mut i: usize = 0;
    while i < n
        invariant
            n == vars@.len(),
            i <= n,
            out@.len() == i,
            forall|j: int| 0 <= j < i ==> (#[trigger] out@[j]).name@ == vars@[j].name@ && out@[j].from_param is None && out@[j].value is Some && out@[j].value->0@ == vars@[j].value@,
        decreases n - i,
    {
        let v = &vars[i];
        out.push(ParameterValue { name: v.name.clone(), value: Some(v.value.deep_copy()), from_param: None });
        i = i + 1;
    }
    proof {
        assert forall|a: int, b: int| 0 <= a < b < out@.len() implies seq_lt(#[trigger] out@[a].name@, #[trigger] out@[b].name@) by {
            assert(seq_lt(vars@[a].name@, vars@[b].name@));
        }
        assert forall|i: int| 0 <= i < out@.len() implies has_variable(given, (#[trigger] out@[i]).name@, out@[i].value->0@) by {
            assert(has_variable(given, vars@[i].name@, vars@[i].value@));
        }
        assert forall|j: int| 0 <= j < given.len() implies has_value_named(out@, (#[trigger] given[j]).name@) by {
            assert(has_name(vars@, given[j].name@));
            let i = choose|i: int| 0 <= i < vars@.len() && vars@[i].name@ == given[j].name@;
            assert(out@[i].name@ == vars@[i].name@);
        }
    }
    out
}

/// The variables given, none where there are none.
pub open spec fn given_variables(vars: Option<Vec<Variable>>) -> Seq<Variable> {
    match vars {
        Some(v) => v@,
        None => Seq::empty(),
    }
}

/// `s` holds a parameter value of this name.
pub open spec fn has_value_named(s: Seq<ParameterValue>, name: Seq<char>) -> bool {
    exists|j: int| 0 <= j < s.len() && s[j].name@ == name
}

} // verus!
